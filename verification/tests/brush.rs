use plumber::brush::{
    BuiltBrushEntity, BuiltSolid, MergedSolids, PyBuiltBrushEntity, PyBuiltSolid, PyMergedSolids,
    SolidFace, SolidMaterial,
};

fn face(indices: Vec<usize>, material_index: usize) -> SolidFace<f32> {
    let n = indices.len();
    let mut loop_uvs = Vec::new();
    let mut loop_colors = Vec::new();
    for (k, &v) in indices.iter().enumerate() {
        loop_uvs.push([v as f32, k as f32 + 0.5]);
        loop_colors.push([v as f32, v as f32, v as f32, 1.0]);
    }
    assert_eq!(loop_uvs.len(), n);
    SolidFace { vertice_indices: indices, loop_uvs, loop_colors, material_index }
}

fn material(name: &str, no_draw: bool) -> SolidMaterial {
    SolidMaterial { name: name.to_string(), no_draw }
}

fn sample_merged() -> MergedSolids<f32> {
    MergedSolids {
        vertices: vec![[0.0, 0.0, 0.0], [1.0, 0.0, 0.0], [1.0, 1.0, 0.0], [0.0, 1.0, 2.0]],
        faces: vec![face(vec![0, 1, 2], 1), face(vec![0, 2, 3, 1], 0), face(vec![3, 2, 1], 1)],
        materials: vec![material("tools/toolsnodraw", true), material("brick/wall01", false)],
        scale: 0.5,
    }
}

#[test]
fn merged_solids_flatten_vertex_coordinates() {
    let mut solids = PyMergedSolids::new(sample_merged());
    assert_eq!(
        solids.vertices(),
        vec![0.0, 0.0, 0.0, 1.0, 0.0, 0.0, 1.0, 1.0, 0.0, 0.0, 1.0, 2.0]
    );
}

#[test]
fn merged_solids_loop_layout() {
    let mut solids = PyMergedSolids::new(sample_merged());
    assert_eq!(solids.polygons_len(), 3);
    assert_eq!(solids.loops_len(), 10);
    assert_eq!(solids.polygon_loop_totals(), vec![3, 4, 3]);
    assert_eq!(solids.polygon_loop_starts(), vec![0, 3, 7]);
    assert_eq!(solids.polygon_material_indices(), vec![1, 0, 1]);
    assert_eq!(solids.polygon_vertices(), vec![0, 1, 2, 0, 2, 3, 1, 3, 2, 1]);
}

#[test]
fn loop_starts_select_each_polygon() {
    let merged = sample_merged();
    let expected: Vec<Vec<usize>> = merged.faces.iter().map(|f| f.vertice_indices.clone()).collect();
    let mut solids = PyMergedSolids::new(merged);
    let starts = solids.polygon_loop_starts();
    let totals = solids.polygon_loop_totals();
    let flat = solids.polygon_vertices();
    for i in 0..expected.len() {
        assert_eq!(&flat[starts[i]..starts[i] + totals[i]], expected[i].as_slice());
    }
    assert_eq!(starts[2] + totals[2], solids.loops_len());
}

#[test]
fn merged_solids_loop_uvs_and_colors() {
    let mut solids = PyMergedSolids::new(sample_merged());
    let uvs = solids.loop_uvs();
    let colors = solids.loop_colors();
    assert_eq!(uvs.len(), 2 * 10);
    assert_eq!(colors.len(), 4 * 10);
    // loop 1 of polygon 1 (vertex 2) is loop 3 + 1 = 4 overall
    assert_eq!(&uvs[8..10], &[2.0, 1.5]);
    assert_eq!(&colors[16..20], &[2.0, 2.0, 2.0, 1.0]);
    assert_eq!(&uvs[0..2], &[0.0, 0.5]);
}

#[test]
fn merged_solids_materials_and_no_draw() {
    let mut solids = PyMergedSolids::new(sample_merged());
    assert!(!solids.no_draw());
    assert_eq!(solids.scale(), [0.5, 0.5, 0.5]);
    assert_eq!(
        solids.materials(),
        vec!["tools/toolsnodraw".to_string(), "brick/wall01".to_string()]
    );
}

#[test]
fn no_draw_when_every_material_is_no_draw() {
    let mut merged = sample_merged();
    merged.materials = vec![material("tools/toolsnodraw", true), material("tools/toolsskip", true)];
    assert!(PyMergedSolids::new(merged).no_draw());
}

#[test]
fn no_draw_without_materials() {
    let mut merged = sample_merged();
    merged.materials = Vec::new();
    assert!(PyMergedSolids::new(merged).no_draw());
}

#[test]
fn buffers_are_handed_out_once() {
    let mut solids = PyMergedSolids::new(sample_merged());
    assert_eq!(solids.vertices().len(), 12);
    assert!(solids.vertices().is_empty());
    assert_eq!(solids.polygon_vertices().len(), 10);
    assert!(solids.polygon_vertices().is_empty());
    assert_eq!(solids.loop_uvs().len(), 20);
    assert!(solids.loop_uvs().is_empty());
    assert_eq!(solids.loop_colors().len(), 40);
    assert!(solids.loop_colors().is_empty());
    assert_eq!(solids.materials().len(), 2);
    assert!(solids.materials().is_empty());
    // the per-polygon data stays
    assert_eq!(solids.loops_len(), 10);
    assert_eq!(solids.polygon_loop_starts(), vec![0, 3, 7]);
}

#[test]
fn empty_solid_has_no_loops() {
    let merged = MergedSolids::<f32> {
        vertices: Vec::new(),
        faces: Vec::new(),
        materials: Vec::new(),
        scale: 1.0,
    };
    let mut solids = PyMergedSolids::new(merged);
    assert_eq!(solids.loops_len(), 0);
    assert_eq!(solids.polygons_len(), 0);
    assert!(solids.polygon_loop_starts().is_empty());
    assert!(solids.polygon_vertices().is_empty());
}

fn sample_solid(id: i32) -> BuiltSolid<f32> {
    let merged = sample_merged();
    BuiltSolid {
        id,
        position: [10.0, -4.0, 2.5],
        vertices: merged.vertices,
        faces: merged.faces,
        materials: merged.materials,
        scale: 2.0,
    }
}

#[test]
fn built_solid_keeps_id_and_position() {
    let mut solid = PyBuiltSolid::new(sample_solid(42));
    assert_eq!(solid.id(), 42);
    assert_eq!(solid.position(), [10.0, -4.0, 2.5]);
    assert_eq!(solid.scale(), [2.0, 2.0, 2.0]);
    assert_eq!(solid.polygon_loop_starts(), vec![0, 3, 7]);
    assert_eq!(solid.polygon_loop_totals(), vec![3, 4, 3]);
    assert_eq!(solid.polygon_material_indices(), vec![1, 0, 1]);
    assert_eq!(solid.loops_len(), 10);
    assert_eq!(solid.polygons_len(), 3);
    assert!(!solid.no_draw());
    assert_eq!(solid.polygon_vertices(), vec![0, 1, 2, 0, 2, 3, 1, 3, 2, 1]);
    assert!(solid.polygon_vertices().is_empty());
    assert_eq!(solid.vertices().len(), 12);
    assert_eq!(solid.loop_uvs().len(), 20);
    assert_eq!(solid.loop_colors().len(), 40);
    assert_eq!(solid.materials().len(), 2);
    assert_eq!(solid.id(), 42);
}

#[test]
fn brush_entity_hands_out_its_solids_once() {
    let brush = BuiltBrushEntity {
        id: 7,
        class_name: "func_detail".to_string(),
        merged_solids: Some(sample_merged()),
        solids: vec![sample_solid(1), sample_solid(2)],
    };
    let mut entity = PyBuiltBrushEntity::new(brush);
    assert_eq!(entity.id(), 7);
    assert_eq!(entity.class_name(), "func_detail");
    let merged = entity.merged_solids();
    assert!(merged.is_some());
    assert_eq!(merged.unwrap().loops_len(), 10);
    assert!(entity.merged_solids().is_none());
    let solids = entity.solids();
    let ids: Vec<i32> = solids.iter().map(|s| s.id()).collect();
    assert_eq!(ids, vec![1, 2]);
    assert!(entity.solids().is_empty());
    assert_eq!(entity.class_name(), "func_detail");
}

#[test]
fn brush_entity_without_merged_solids() {
    let brush = BuiltBrushEntity::<f32> {
        id: 3,
        class_name: "func_wall".to_string(),
        merged_solids: None,
        solids: Vec::new(),
    };
    let mut entity = PyBuiltBrushEntity::new(brush);
    assert!(entity.merged_solids().is_none());
    assert!(entity.solids().is_empty());
}
