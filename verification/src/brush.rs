//! Brush geometry laid out as Blender mesh buffers.
//!
//! A solid arrives as vertex positions, polygons (each a list of vertex
//! indices with per-loop uv and color data) and materials. Blender wants the
//! polygons as flat per-loop buffers plus, for each polygon, where its loops
//! start in those buffers and how many there are. The scalar type `F` of
//! positions, uvs and colors is left to the caller.
use vstd::prelude::*;
use crate::loops::{
    extend_copied, flat_arrays, flatten_arrays, group_start, lemma_flat_arrays_index,
    lemma_flat_arrays_len, lemma_flatten_index, lemma_flatten_split, lemma_group_start_step,
    lemma_scaled_group_start,
};

verus! {

broadcast use Seq::lemma_flatten_push;

/// A polygon of a solid: its vertex indices, one per loop, and the uv and
/// color of each loop, already in Blender's convention.
pub struct SolidFace<F> {
    pub vertice_indices: Vec<usize>,
    pub loop_uvs: Vec<[F; 2]>,
    pub loop_colors: Vec<[F; 4]>,
    pub material_index: usize,
}

/// A material of a solid: its name and whether it is a no-draw material.
pub struct SolidMaterial {
    pub name: String,
    pub no_draw: bool,
}

/// The solids of a brush entity merged into one mesh.
pub struct MergedSolids<F> {
    pub vertices: Vec<[F; 3]>,
    pub faces: Vec<SolidFace<F>>,
    pub materials: Vec<SolidMaterial>,
    pub scale: F,
}

/// One solid of a brush entity, placed at `position`.
pub struct BuiltSolid<F> {
    pub id: i32,
    pub position: [F; 3],
    pub vertices: Vec<[F; 3]>,
    pub faces: Vec<SolidFace<F>>,
    pub materials: Vec<SolidMaterial>,
    pub scale: F,
}

/// A brush entity: its solids, either merged or one by one.
pub struct BuiltBrushEntity<F> {
    pub id: i32,
    pub class_name: String,
    pub merged_solids: Option<MergedSolids<F>>,
    pub solids: Vec<BuiltSolid<F>>,
}

/// The vertex indices of each polygon.
pub open spec fn face_loops<F>(faces: Seq<SolidFace<F>>) -> Seq<Seq<usize>> {
    faces.map_values(|f: SolidFace<F>| f.vertice_indices@)
}

/// The flattened uv pairs of each polygon.
pub open spec fn face_uvs<F>(faces: Seq<SolidFace<F>>) -> Seq<Seq<F>> {
    faces.map_values(|f: SolidFace<F>| flat_arrays(f.loop_uvs@))
}

/// The flattened colors of each polygon.
pub open spec fn face_colors<F>(faces: Seq<SolidFace<F>>) -> Seq<Seq<F>> {
    faces.map_values(|f: SolidFace<F>| flat_arrays(f.loop_colors@))
}

/// The material index of each polygon.
pub open spec fn face_material_indices<F>(faces: Seq<SolidFace<F>>) -> Seq<usize> {
    faces.map_values(|f: SolidFace<F>| f.material_index)
}

/// Whether every material is a no-draw material (true when there are none).
pub open spec fn all_no_draw(materials: Seq<SolidMaterial>) -> bool {
    forall|i: int| 0 <= i < materials.len() ==> #[trigger] materials[i].no_draw
}

/// The names of the materials, in order.
pub open spec fn material_names(materials: Seq<SolidMaterial>) -> Seq<Seq<char>> {
    materials.map_values(|m: SolidMaterial| m.name@)
}

/// What a mesh holds: the per-polygon data and the flat buffers that are
/// handed out (and emptied) one by one.
#[verifier::ext_equal]
pub struct MeshView<F> {
    pub no_draw: bool,
    pub scale: F,
    pub loops: Seq<Seq<usize>>,
    pub material_indices: Seq<usize>,
    pub vertices: Seq<F>,
    pub polygon_vertices: Seq<usize>,
    pub loop_uvs: Seq<F>,
    pub loop_colors: Seq<F>,
    pub materials: Seq<Seq<char>>,
}

/// The mesh built from vertex positions, polygons, materials and scale.
pub open spec fn mesh_view_of<F>(
    vertices: Seq<[F; 3]>,
    faces: Seq<SolidFace<F>>,
    materials: Seq<SolidMaterial>,
    scale: F,
) -> MeshView<F> {
    MeshView {
        no_draw: all_no_draw(materials),
        scale,
        loops: face_loops(faces),
        material_indices: face_material_indices(faces),
        vertices: flat_arrays(vertices),
        polygon_vertices: face_loops(faces).flatten(),
        loop_uvs: face_uvs(faces).flatten(),
        loop_colors: face_colors(faces).flatten(),
        materials: material_names(materials),
    }
}

/// The mesh data shared by merged and single solids.
pub(crate) struct MeshData<F> {
    no_draw: bool,
    scale: F,
    faces: Vec<SolidFace<F>>,
    materials: Vec<String>,
    flat_vertices: Vec<F>,
    flat_polygon_vertice_indices: Vec<usize>,
    flat_loop_uvs: Vec<F>,
    flat_loop_colors: Vec<F>,
}

impl<F> View for MeshData<F> {
    type V = MeshView<F>;

    closed spec fn view(&self) -> MeshView<F> {
        MeshView {
            no_draw: self.no_draw,
            scale: self.scale,
            loops: face_loops(self.faces@),
            material_indices: face_material_indices(self.faces@),
            vertices: self.flat_vertices@,
            polygon_vertices: self.flat_polygon_vertice_indices@,
            loop_uvs: self.flat_loop_uvs@,
            loop_colors: self.flat_loop_colors@,
            materials: self.materials@.map_values(|s: String| s@),
        }
    }
}

/// The vertex indices of all polygons, polygon after polygon.
fn flatten_face_loops<F>(faces: &Vec<SolidFace<F>>) -> (flat: Vec<usize>)
    ensures
        flat@ == face_loops(faces@).flatten(),
{
    let mut flat: Vec<usize> = Vec::new();
    let n = faces.len();
    let mut i: usize = 0;
    while i < n
        invariant
            n == faces@.len(),
            i <= n,
            flat@ == face_loops(faces@.take(i as int)).flatten(),
        decreases n - i,
    {
        extend_copied(&mut flat, &faces[i].vertice_indices);
        assert(face_loops(faces@.take(i as int + 1)) == face_loops(faces@.take(i as int)).push(
            faces@[i as int].vertice_indices@,
        ));
        i = i + 1;
    }
    assert(faces@.take(n as int) == faces@);
    flat
}

/// The uv pairs of all loops, polygon after polygon.
fn flatten_face_uvs<F: Copy>(faces: &Vec<SolidFace<F>>) -> (flat: Vec<F>)
    ensures
        flat@ == face_uvs(faces@).flatten(),
{
    let mut flat: Vec<F> = Vec::new();
    let n = faces.len();
    let mut i: usize = 0;
    while i < n
        invariant
            n == faces@.len(),
            i <= n,
            flat@ == face_uvs(faces@.take(i as int)).flatten(),
        decreases n - i,
    {
        let mut part = flatten_arrays(&faces[i].loop_uvs);
        flat.append(&mut part);
        assert(face_uvs(faces@.take(i as int + 1)) == face_uvs(faces@.take(i as int)).push(
            flat_arrays(faces@[i as int].loop_uvs@),
        ));
        i = i + 1;
    }
    assert(faces@.take(n as int) == faces@);
    flat
}

/// The colors of all loops, polygon after polygon.
fn flatten_face_colors<F: Copy>(faces: &Vec<SolidFace<F>>) -> (flat: Vec<F>)
    ensures
        flat@ == face_colors(faces@).flatten(),
{
    let mut flat: Vec<F> = Vec::new();
    let n = faces.len();
    let mut i: usize = 0;
    while i < n
        invariant
            n == faces@.len(),
            i <= n,
            flat@ == face_colors(faces@.take(i as int)).flatten(),
        decreases n - i,
    {
        let mut part = flatten_arrays(&faces[i].loop_colors);
        flat.append(&mut part);
        assert(face_colors(faces@.take(i as int + 1)) == face_colors(faces@.take(i as int)).push(
            flat_arrays(faces@[i as int].loop_colors@),
        ));
        i = i + 1;
    }
    assert(faces@.take(n as int) == faces@);
    flat
}

/// Whether every material is a no-draw material.
fn materials_no_draw(materials: &Vec<SolidMaterial>) -> (all: bool)
    ensures
        all == all_no_draw(materials@),
{
    let n = materials.len();
    let mut i: usize = 0;
    while i < n
        invariant
            n == materials@.len(),
            i <= n,
            forall|j: int| 0 <= j < i ==> #[trigger] materials@[j].no_draw,
        decreases n - i,
    {
        if !materials[i].no_draw {
            return false;
        }
        i = i + 1;
    }
    true
}

/// The names of the materials, in order.
fn into_material_names(materials: Vec<SolidMaterial>) -> (names: Vec<String>)
    ensures
        names@.map_values(|s: String| s@) == material_names(materials@),
{
    let ghost all = materials@;
    let mut names: Vec<String> = Vec::new();
    for m in it: materials.into_iter()
        invariant
            it.seq() == all,
            names@.len() == it.index(),
            forall|j: int| 0 <= j < it.index() ==> #[trigger] names@[j]@ == all[j].name@,
    {
        names.push(m.name);
    }
    assert(names@.map_values(|s: String| s@) =~= material_names(all));
    names
}


impl<F> MeshData<F> {
    /// Every polygon's loops fit together in one buffer.
    #[verifier::type_invariant]
    spec fn loops_fit(&self) -> bool {
        face_loops(self.faces@).flatten().len() <= usize::MAX
    }
}

impl<F: Copy> MeshData<F> {
    /// Lays out the polygons of a solid as flat loop buffers.
    pub(crate) fn from_parts(
        vertices: Vec<[F; 3]>,
        faces: Vec<SolidFace<F>>,
        materials: Vec<SolidMaterial>,
        scale: F,
    ) -> (mesh: Self)
        ensures
            mesh@ == mesh_view_of(vertices@, faces@, materials@, scale),
    {
        let flat_vertices = flatten_arrays(&vertices);
        let flat_polygon_vertice_indices = flatten_face_loops(&faces);
        let flat_loop_uvs = flatten_face_uvs(&faces);
        let flat_loop_colors = flatten_face_colors(&faces);
        let no_draw = materials_no_draw(&materials);
        let names = into_material_names(materials);
        // A vector's length always fits in `usize`: this bounds the loop count.
        let loop_count = flat_polygon_vertice_indices.len();
        assert(face_loops(faces@).flatten().len() == loop_count);
        let mesh = MeshData {
            no_draw,
            scale,
            faces,
            materials: names,
            flat_vertices,
            flat_polygon_vertice_indices,
            flat_loop_uvs,
            flat_loop_colors,
        };
        assert(mesh@ =~= mesh_view_of(vertices@, faces@, materials@, scale));
        mesh
    }

    /// Whether every material of the solid is a no-draw material.
    pub(crate) fn no_draw(&self) -> (no_draw: bool)
        ensures
            no_draw == self@.no_draw,
    {
        self.no_draw
    }

    /// The scale on each of the three axes.
    pub(crate) fn scale(&self) -> (scale: [F; 3])
        ensures
            scale@ == seq![self@.scale, self@.scale, self@.scale],
    {
        let scale = [self.scale, self.scale, self.scale];
        assert(scale@ =~= seq![self@.scale, self@.scale, self@.scale]);
        scale
    }

    /// Hands out the vertex coordinates, leaving none behind.
    pub(crate) fn vertices(&mut self) -> (vertices: Vec<F>)
        ensures
            vertices@ == old(self)@.vertices,
            final(self)@ == (MeshView { vertices: Seq::empty(), ..old(self)@ }),
    {
        proof {
            use_type_invariant(&*self);
        }
        let mut taken: Vec<F> = Vec::new();
        std::mem::swap(&mut taken, &mut self.flat_vertices);
        assert(self@ =~= (MeshView { vertices: Seq::empty(), ..old(self)@ }));
        taken
    }

    /// The total number of loops over all polygons.
    pub(crate) fn loops_len(&self) -> (len: usize)
        ensures
            len == self@.loops.flatten().len(),
    {
        proof {
            use_type_invariant(self);
        }
        let ghost loops = face_loops(self.faces@);
        let n = self.faces.len();
        let mut total: usize = 0;
        let mut i: usize = 0;
        while i < n
            invariant
                n == loops.len(),
                loops == face_loops(self.faces@),
                loops.flatten().len() <= usize::MAX,
                i <= n,
                total == group_start(loops, i as int),
            decreases n - i,
        {
            proof {
                lemma_group_start_step(loops, i as int);
                lemma_flatten_split(loops, i as int + 1);
            }
            total = total + self.faces[i].vertice_indices.len();
            i = i + 1;
        }
        proof {
            lemma_flatten_split(loops, n as int);
        }
        total
    }

    /// The number of polygons.
    pub(crate) fn polygons_len(&self) -> (len: usize)
        ensures
            len == self@.loops.len(),
    {
        self.faces.len()
    }

    /// The number of loops of each polygon.
    pub(crate) fn polygon_loop_totals(&self) -> (totals: Vec<usize>)
        ensures
            totals@.len() == self@.loops.len(),
            forall|i: int| 0 <= i < totals@.len() ==> totals@[i] == #[trigger] self@.loops[i].len(),
    {
        let n = self.faces.len();
        let mut totals: Vec<usize> = Vec::new();
        let mut i: usize = 0;
        while i < n
            invariant
                n == self.faces@.len(),
                i <= n,
                totals@.len() == i,
                forall|j: int| 0 <= j < i ==> totals@[j] == #[trigger] face_loops(self.faces@)[j].len(),
            decreases n - i,
        {
            totals.push(self.faces[i].vertice_indices.len());
            i = i + 1;
        }
        totals
    }

    /// Where the loops of each polygon start in the flat loop buffers.
    pub(crate) fn polygon_loop_starts(&self) -> (starts: Vec<usize>)
        ensures
            starts@.len() == self@.loops.len(),
            forall|i: int| 0 <= i < starts@.len() ==> starts@[i] == group_start(self@.loops, i),
    {
        proof {
            use_type_invariant(self);
        }
        let ghost loops = face_loops(self.faces@);
        let n = self.faces.len();
        let mut starts: Vec<usize> = Vec::new();
        let mut acc: usize = 0;
        let mut i: usize = 0;
        while i < n
            invariant
                n == loops.len(),
                loops == face_loops(self.faces@),
                loops.flatten().len() <= usize::MAX,
                i <= n,
                acc == group_start(loops, i as int),
                starts@.len() == i,
                forall|j: int| 0 <= j < i ==> starts@[j] == group_start(loops, j),
            decreases n - i,
        {
            proof {
                lemma_group_start_step(loops, i as int);
                lemma_flatten_split(loops, i as int + 1);
            }
            starts.push(acc);
            acc = acc + self.faces[i].vertice_indices.len();
            i = i + 1;
        }
        starts
    }

    /// Hands out the vertex index of every loop, leaving none behind.
    pub(crate) fn polygon_vertices(&mut self) -> (indices: Vec<usize>)
        ensures
            indices@ == old(self)@.polygon_vertices,
            final(self)@ == (MeshView { polygon_vertices: Seq::empty(), ..old(self)@ }),
    {
        proof {
            use_type_invariant(&*self);
        }
        let mut taken: Vec<usize> = Vec::new();
        std::mem::swap(&mut taken, &mut self.flat_polygon_vertice_indices);
        assert(self@ =~= (MeshView { polygon_vertices: Seq::empty(), ..old(self)@ }));
        taken
    }

    /// The material index of each polygon.
    pub(crate) fn polygon_material_indices(&self) -> (indices: Vec<usize>)
        ensures
            indices@ == self@.material_indices,
            indices@.len() == self@.loops.len(),
    {
        let n = self.faces.len();
        let mut indices: Vec<usize> = Vec::new();
        let mut i: usize = 0;
        while i < n
            invariant
                n == self.faces@.len(),
                i <= n,
                indices@ == face_material_indices(self.faces@.take(i as int)),
            decreases n - i,
        {
            indices.push(self.faces[i].material_index);
            assert(face_material_indices(self.faces@.take(i as int + 1)) =~= face_material_indices(
                self.faces@.take(i as int),
            ).push(self.faces@[i as int].material_index));
            i = i + 1;
        }
        assert(self.faces@.take(n as int) == self.faces@);
        indices
    }

    /// Hands out the uv coordinates of every loop, leaving none behind.
    pub(crate) fn loop_uvs(&mut self) -> (uvs: Vec<F>)
        ensures
            uvs@ == old(self)@.loop_uvs,
            final(self)@ == (MeshView { loop_uvs: Seq::empty(), ..old(self)@ }),
    {
        proof {
            use_type_invariant(&*self);
        }
        let mut taken: Vec<F> = Vec::new();
        std::mem::swap(&mut taken, &mut self.flat_loop_uvs);
        assert(self@ =~= (MeshView { loop_uvs: Seq::empty(), ..old(self)@ }));
        taken
    }

    /// Hands out the color of every loop, leaving none behind.
    pub(crate) fn loop_colors(&mut self) -> (colors: Vec<F>)
        ensures
            colors@ == old(self)@.loop_colors,
            final(self)@ == (MeshView { loop_colors: Seq::empty(), ..old(self)@ }),
    {
        proof {
            use_type_invariant(&*self);
        }
        let mut taken: Vec<F> = Vec::new();
        std::mem::swap(&mut taken, &mut self.flat_loop_colors);
        assert(self@ =~= (MeshView { loop_colors: Seq::empty(), ..old(self)@ }));
        taken
    }

    /// Hands out the material names, leaving none behind.
    pub(crate) fn materials(&mut self) -> (names: Vec<String>)
        ensures
            names@.map_values(|s: String| s@) == old(self)@.materials,
            final(self)@ == (MeshView { materials: Seq::empty(), ..old(self)@ }),
    {
        proof {
            use_type_invariant(&*self);
        }
        let mut taken: Vec<String> = Vec::new();
        std::mem::swap(&mut taken, &mut self.materials);
        assert(self@ =~= (MeshView { materials: Seq::empty(), ..old(self)@ }));
        taken
    }
}


/// The merged solids of a brush entity, ready for Blender.
pub struct PyMergedSolids<F> {
    mesh: MeshData<F>,
}

impl<F> View for PyMergedSolids<F> {
    type V = MeshView<F>;

    closed spec fn view(&self) -> MeshView<F> {
        self.mesh@
    }
}

impl<F: Copy> PyMergedSolids<F> {
    /// Lays out merged solids as flat loop buffers.
    pub fn new(merged: MergedSolids<F>) -> (solids: Self)
        ensures
            solids@ == mesh_view_of(merged.vertices@, merged.faces@, merged.materials@, merged.scale),
    {
        PyMergedSolids {
            mesh: MeshData::from_parts(merged.vertices, merged.faces, merged.materials, merged.scale),
        }
    }

    /// Whether every material is a no-draw material.
    pub fn no_draw(&self) -> (no_draw: bool)
        ensures
            no_draw == self@.no_draw,
    {
        self.mesh.no_draw()
    }

    /// The scale on each of the three axes.
    pub fn scale(&self) -> (scale: [F; 3])
        ensures
            scale@ == seq![self@.scale, self@.scale, self@.scale],
    {
        self.mesh.scale()
    }

    /// Hands out the vertex coordinates, leaving none behind.
    pub fn vertices(&mut self) -> (vertices: Vec<F>)
        ensures
            vertices@ == old(self)@.vertices,
            final(self)@ == (MeshView { vertices: Seq::empty(), ..old(self)@ }),
    {
        self.mesh.vertices()
    }

    /// The total number of loops over all polygons.
    pub fn loops_len(&self) -> (len: usize)
        ensures
            len == self@.loops.flatten().len(),
    {
        self.mesh.loops_len()
    }

    /// The number of polygons.
    pub fn polygons_len(&self) -> (len: usize)
        ensures
            len == self@.loops.len(),
    {
        self.mesh.polygons_len()
    }

    /// The number of loops of each polygon.
    pub fn polygon_loop_totals(&self) -> (totals: Vec<usize>)
        ensures
            totals@.len() == self@.loops.len(),
            forall|i: int| 0 <= i < totals@.len() ==> totals@[i] == #[trigger] self@.loops[i].len(),
    {
        self.mesh.polygon_loop_totals()
    }

    /// Where the loops of each polygon start in the flat loop buffers.
    pub fn polygon_loop_starts(&self) -> (starts: Vec<usize>)
        ensures
            starts@.len() == self@.loops.len(),
            forall|i: int| 0 <= i < starts@.len() ==> starts@[i] == group_start(self@.loops, i),
    {
        self.mesh.polygon_loop_starts()
    }

    /// Hands out the vertex index of every loop, leaving none behind.
    pub fn polygon_vertices(&mut self) -> (indices: Vec<usize>)
        ensures
            indices@ == old(self)@.polygon_vertices,
            final(self)@ == (MeshView { polygon_vertices: Seq::empty(), ..old(self)@ }),
    {
        self.mesh.polygon_vertices()
    }

    /// The material index of each polygon.
    pub fn polygon_material_indices(&self) -> (indices: Vec<usize>)
        ensures
            indices@ == self@.material_indices,
            indices@.len() == self@.loops.len(),
    {
        self.mesh.polygon_material_indices()
    }

    /// Hands out the uv coordinates of every loop, leaving none behind.
    pub fn loop_uvs(&mut self) -> (uvs: Vec<F>)
        ensures
            uvs@ == old(self)@.loop_uvs,
            final(self)@ == (MeshView { loop_uvs: Seq::empty(), ..old(self)@ }),
    {
        self.mesh.loop_uvs()
    }

    /// Hands out the color of every loop, leaving none behind.
    pub fn loop_colors(&mut self) -> (colors: Vec<F>)
        ensures
            colors@ == old(self)@.loop_colors,
            final(self)@ == (MeshView { loop_colors: Seq::empty(), ..old(self)@ }),
    {
        self.mesh.loop_colors()
    }

    /// Hands out the material names, leaving none behind.
    pub fn materials(&mut self) -> (names: Vec<String>)
        ensures
            names@.map_values(|s: String| s@) == old(self)@.materials,
            final(self)@ == (MeshView { materials: Seq::empty(), ..old(self)@ }),
    {
        self.mesh.materials()
    }
}

/// What a single solid holds: its id, its position and its mesh.
#[verifier::ext_equal]
pub struct SolidView<F> {
    pub id: i32,
    pub position: Seq<F>,
    pub mesh: MeshView<F>,
}

/// The solid built from a brush entity's single solid.
pub open spec fn solid_view_of<F>(solid: BuiltSolid<F>) -> SolidView<F> {
    SolidView {
        id: solid.id,
        position: solid.position@,
        mesh: mesh_view_of(solid.vertices@, solid.faces@, solid.materials@, solid.scale),
    }
}

/// One solid of a brush entity, ready for Blender.
pub struct PyBuiltSolid<F> {
    id: i32,
    position: [F; 3],
    mesh: MeshData<F>,
}

impl<F> View for PyBuiltSolid<F> {
    type V = SolidView<F>;

    closed spec fn view(&self) -> SolidView<F> {
        SolidView { id: self.id, position: self.position@, mesh: self.mesh@ }
    }
}

impl<F: Copy> PyBuiltSolid<F> {
    /// Lays out a single solid as flat loop buffers.
    pub fn new(solid: BuiltSolid<F>) -> (built: Self)
        ensures
            built@ == solid_view_of(solid),
    {
        let built = PyBuiltSolid {
            id: solid.id,
            position: solid.position,
            mesh: MeshData::from_parts(solid.vertices, solid.faces, solid.materials, solid.scale),
        };
        assert(built@ =~= solid_view_of(solid));
        built
    }

    /// The id of the solid.
    pub fn id(&self) -> (id: i32)
        ensures
            id == self@.id,
    {
        self.id
    }

    /// Whether every material is a no-draw material.
    pub fn no_draw(&self) -> (no_draw: bool)
        ensures
            no_draw == self@.mesh.no_draw,
    {
        self.mesh.no_draw()
    }

    /// The position of the solid.
    pub fn position(&self) -> (position: [F; 3])
        ensures
            position@ == self@.position,
    {
        self.position
    }

    /// The scale on each of the three axes.
    pub fn scale(&self) -> (scale: [F; 3])
        ensures
            scale@ == seq![self@.mesh.scale, self@.mesh.scale, self@.mesh.scale],
    {
        self.mesh.scale()
    }

    /// Hands out the vertex coordinates, leaving none behind.
    pub fn vertices(&mut self) -> (vertices: Vec<F>)
        ensures
            vertices@ == old(self)@.mesh.vertices,
            final(self)@ == (SolidView {
                mesh: MeshView { vertices: Seq::empty(), ..old(self)@.mesh },
                ..old(self)@
            }),
    {
        let taken = self.mesh.vertices();
        assert(self@ =~= (SolidView {
            mesh: MeshView { vertices: Seq::empty(), ..old(self)@.mesh },
            ..old(self)@
        }));
        taken
    }

    /// The total number of loops over all polygons.
    pub fn loops_len(&self) -> (len: usize)
        ensures
            len == self@.mesh.loops.flatten().len(),
    {
        self.mesh.loops_len()
    }

    /// The number of polygons.
    pub fn polygons_len(&self) -> (len: usize)
        ensures
            len == self@.mesh.loops.len(),
    {
        self.mesh.polygons_len()
    }

    /// The number of loops of each polygon.
    pub fn polygon_loop_totals(&self) -> (totals: Vec<usize>)
        ensures
            totals@.len() == self@.mesh.loops.len(),
            forall|i: int|
                0 <= i < totals@.len() ==> totals@[i] == #[trigger] self@.mesh.loops[i].len(),
    {
        self.mesh.polygon_loop_totals()
    }

    /// Where the loops of each polygon start in the flat loop buffers.
    pub fn polygon_loop_starts(&self) -> (starts: Vec<usize>)
        ensures
            starts@.len() == self@.mesh.loops.len(),
            forall|i: int|
                0 <= i < starts@.len() ==> starts@[i] == group_start(self@.mesh.loops, i),
    {
        self.mesh.polygon_loop_starts()
    }

    /// Hands out the vertex index of every loop, leaving none behind.
    pub fn polygon_vertices(&mut self) -> (indices: Vec<usize>)
        ensures
            indices@ == old(self)@.mesh.polygon_vertices,
            final(self)@ == (SolidView {
                mesh: MeshView { polygon_vertices: Seq::empty(), ..old(self)@.mesh },
                ..old(self)@
            }),
    {
        let taken = self.mesh.polygon_vertices();
        assert(self@ =~= (SolidView {
            mesh: MeshView { polygon_vertices: Seq::empty(), ..old(self)@.mesh },
            ..old(self)@
        }));
        taken
    }

    /// The material index of each polygon.
    pub fn polygon_material_indices(&self) -> (indices: Vec<usize>)
        ensures
            indices@ == self@.mesh.material_indices,
            indices@.len() == self@.mesh.loops.len(),
    {
        self.mesh.polygon_material_indices()
    }

    /// Hands out the uv coordinates of every loop, leaving none behind.
    pub fn loop_uvs(&mut self) -> (uvs: Vec<F>)
        ensures
            uvs@ == old(self)@.mesh.loop_uvs,
            final(self)@ == (SolidView {
                mesh: MeshView { loop_uvs: Seq::empty(), ..old(self)@.mesh },
                ..old(self)@
            }),
    {
        let taken = self.mesh.loop_uvs();
        assert(self@ =~= (SolidView {
            mesh: MeshView { loop_uvs: Seq::empty(), ..old(self)@.mesh },
            ..old(self)@
        }));
        taken
    }

    /// Hands out the color of every loop, leaving none behind.
    pub fn loop_colors(&mut self) -> (colors: Vec<F>)
        ensures
            colors@ == old(self)@.mesh.loop_colors,
            final(self)@ == (SolidView {
                mesh: MeshView { loop_colors: Seq::empty(), ..old(self)@.mesh },
                ..old(self)@
            }),
    {
        let taken = self.mesh.loop_colors();
        assert(self@ =~= (SolidView {
            mesh: MeshView { loop_colors: Seq::empty(), ..old(self)@.mesh },
            ..old(self)@
        }));
        taken
    }

    /// Hands out the material names, leaving none behind.
    pub fn materials(&mut self) -> (names: Vec<String>)
        ensures
            names@.map_values(|s: String| s@) == old(self)@.mesh.materials,
            final(self)@ == (SolidView {
                mesh: MeshView { materials: Seq::empty(), ..old(self)@.mesh },
                ..old(self)@
            }),
    {
        let taken = self.mesh.materials();
        assert(self@ =~= (SolidView {
            mesh: MeshView { materials: Seq::empty(), ..old(self)@.mesh },
            ..old(self)@
        }));
        taken
    }
}


/// What a brush entity holds: its id, class name and solids, merged or not.
#[verifier::ext_equal]
pub struct BrushEntityView<F> {
    pub id: i32,
    pub class_name: Seq<char>,
    pub merged_solids: Option<MeshView<F>>,
    pub solids: Seq<SolidView<F>>,
}

/// The mesh of merged solids, where there are any.
pub open spec fn merged_view_of<F>(merged: Option<MergedSolids<F>>) -> Option<MeshView<F>> {
    match merged {
        Some(m) => Some(mesh_view_of(m.vertices@, m.faces@, m.materials@, m.scale)),
        None => None,
    }
}

/// The brush entity built from its source.
pub open spec fn brush_view_of<F>(brush: BuiltBrushEntity<F>) -> BrushEntityView<F> {
    BrushEntityView {
        id: brush.id,
        class_name: brush.class_name@,
        merged_solids: merged_view_of(brush.merged_solids),
        solids: brush.solids@.map_values(|s: BuiltSolid<F>| solid_view_of(s)),
    }
}

/// The view of merged solids that may have been handed out already.
pub open spec fn merged_solids_view<F>(merged: Option<PyMergedSolids<F>>) -> Option<MeshView<F>> {
    match merged {
        Some(m) => Some(m@),
        None => None,
    }
}

/// A brush entity, ready for Blender.
pub struct PyBuiltBrushEntity<F> {
    id: i32,
    class_name: String,
    merged_solids: Option<PyMergedSolids<F>>,
    solids: Vec<PyBuiltSolid<F>>,
}

impl<F> View for PyBuiltBrushEntity<F> {
    type V = BrushEntityView<F>;

    closed spec fn view(&self) -> BrushEntityView<F> {
        BrushEntityView {
            id: self.id,
            class_name: self.class_name@,
            merged_solids: merged_solids_view(self.merged_solids),
            solids: self.solids@.map_values(|s: PyBuiltSolid<F>| s@),
        }
    }
}

impl<F: Copy> PyBuiltBrushEntity<F> {
    /// Lays out every solid of a brush entity.
    pub fn new(brush: BuiltBrushEntity<F>) -> (entity: Self)
        ensures
            entity@ == brush_view_of(brush),
    {
        let ghost source = brush;
        let merged_solids = match brush.merged_solids {
            Some(merged) => Some(PyMergedSolids::new(merged)),
            None => None,
        };
        let mut solids: Vec<PyBuiltSolid<F>> = Vec::new();
        for solid in it: brush.solids.into_iter()
            invariant
                it.seq() == source.solids@,
                solids@.len() == it.index(),
                forall|j: int|
                    0 <= j < it.index() ==> #[trigger] solids@[j]@ == solid_view_of(
                        source.solids@[j],
                    ),
        {
            solids.push(PyBuiltSolid::new(solid));
        }
        let entity = PyBuiltBrushEntity { id: brush.id, class_name: brush.class_name, merged_solids, solids };
        assert(entity@.solids =~= brush_view_of(source).solids);
        assert(entity@ =~= brush_view_of(source));
        entity
    }

    /// The id of the entity.
    pub fn id(&self) -> (id: i32)
        ensures
            id == self@.id,
    {
        self.id
    }

    /// The class name of the entity.
    pub fn class_name(&self) -> (name: &str)
        ensures
            name@ == self@.class_name,
    {
        self.class_name.as_str()
    }

    /// Hands out the merged solids, leaving none behind.
    pub fn merged_solids(&mut self) -> (merged: Option<PyMergedSolids<F>>)
        ensures
            merged_solids_view(merged) == old(self)@.merged_solids,
            final(self)@ == (BrushEntityView { merged_solids: None, ..old(self)@ }),
    {
        let merged = self.merged_solids.take();
        assert(self@ =~= (BrushEntityView { merged_solids: None, ..old(self)@ }));
        merged
    }

    /// Hands out the single solids, leaving none behind.
    pub fn solids(&mut self) -> (solids: Vec<PyBuiltSolid<F>>)
        ensures
            solids@.map_values(|s: PyBuiltSolid<F>| s@) == old(self)@.solids,
            final(self)@ == (BrushEntityView { solids: Seq::empty(), ..old(self)@ }),
    {
        let mut taken: Vec<PyBuiltSolid<F>> = Vec::new();
        std::mem::swap(&mut taken, &mut self.solids);
        assert(self@ =~= (BrushEntityView { solids: Seq::empty(), ..old(self)@ }));
        taken
    }
}


/// A built mesh follows its source: one loop list and one material index per
/// polygon, in polygon order; one name per material, in material order; the
/// given scale; and the flat buffers laid out from the vertices and polygons
/// (see the layout lemmas below for where each item lands).
pub proof fn lemma_mesh_follows_source<F>(
    vertices: Seq<[F; 3]>,
    faces: Seq<SolidFace<F>>,
    materials: Seq<SolidMaterial>,
    scale: F,
)
    ensures
        ({
            let m = mesh_view_of(vertices, faces, materials, scale);
            &&& m.loops.len() == faces.len()
            &&& m.material_indices.len() == faces.len()
            &&& forall|i: int|
                0 <= i < faces.len() ==> m.loops[i] == (#[trigger] faces[i]).vertice_indices@
                    && m.material_indices[i] == faces[i].material_index
            &&& m.materials.len() == materials.len()
            &&& forall|i: int| 0 <= i < materials.len() ==> m.materials[i] == (#[trigger] materials[i]).name@
            &&& m.scale == scale
            &&& m.vertices == flat_arrays(vertices)
            &&& m.polygon_vertices == face_loops(faces).flatten()
            &&& m.loop_uvs == face_uvs(faces).flatten()
            &&& m.loop_colors == face_colors(faces).flatten()
            &&& forall|i: int|
                0 <= i < faces.len() ==> face_uvs(faces)[i] == flat_arrays((#[trigger] faces[i]).loop_uvs@)
                    && face_colors(faces)[i] == flat_arrays(faces[i].loop_colors@)
            &&& face_uvs(faces).len() == faces.len()
            &&& face_colors(faces).len() == faces.len()
        }),
{
}

/// A built brush entity follows its source: the same id and class name,
/// merged solids exactly when the source has them, built from them, and one
/// built solid per source solid, in order, with the same id and position and
/// the mesh built from that solid.
pub proof fn lemma_brush_follows_source<F>(brush: BuiltBrushEntity<F>)
    ensures
        ({
            let e = brush_view_of(brush);
            &&& e.id == brush.id
            &&& e.class_name == brush.class_name@
            &&& (e.merged_solids is Some <==> brush.merged_solids is Some)
            &&& (brush.merged_solids matches Some(m) ==> e.merged_solids == Some(
                mesh_view_of(m.vertices@, m.faces@, m.materials@, m.scale),
            ))
            &&& e.solids.len() == brush.solids@.len()
            &&& forall|i: int|
                0 <= i < brush.solids@.len() ==> {
                    let s = #[trigger] brush.solids@[i];
                    &&& e.solids[i].id == s.id
                    &&& e.solids[i].position == s.position@
                    &&& e.solids[i].mesh == mesh_view_of(s.vertices@, s.faces@, s.materials@, s.scale)
                }
        }),
{
}

/// Merged solids that are still held show their mesh; once handed out,
/// nothing shows.
pub proof fn lemma_merged_solids_view<F>(merged: Option<PyMergedSolids<F>>)
    ensures
        merged is None ==> merged_solids_view(merged) is None,
        merged matches Some(m) ==> merged_solids_view(merged) == Some(m@),
{
}

/// A mesh without materials is no-draw.
pub proof fn lemma_no_draw_without_materials()
    ensures
        all_no_draw(Seq::<SolidMaterial>::empty()),
{
}

/// One more material keeps a mesh no-draw exactly when that material is
/// no-draw itself.
pub proof fn lemma_no_draw_push(materials: Seq<SolidMaterial>, material: SolidMaterial)
    ensures
        all_no_draw(materials.push(material)) == (all_no_draw(materials) && material.no_draw),
{
    if all_no_draw(materials) && material.no_draw {
        assert forall|i: int| 0 <= i < materials.push(material).len() implies #[trigger] materials.push(
            material,
        )[i].no_draw by {
            if i < materials.len() {
                assert(materials.push(material)[i] == materials[i]);
            }
        }
    }
    if all_no_draw(materials.push(material)) {
        assert(materials.push(material)[materials.len() as int] == material);
        assert forall|i: int| 0 <= i < materials.len() implies #[trigger] materials[i].no_draw by {
            assert(materials.push(material)[i] == materials[i]);
        }
    }
}

/// A single drawn material, wherever it stands, makes the mesh drawn; a mesh
/// whose materials are all no-draw is no-draw.
pub proof fn lemma_no_draw_decided_by_each_material(materials: Seq<SolidMaterial>, i: int)
    requires
        0 <= i < materials.len(),
    ensures
        !materials[i].no_draw ==> !all_no_draw(materials),
        (forall|j: int| 0 <= j < materials.len() ==> (#[trigger] materials[j]).no_draw) ==> all_no_draw(
            materials,
        ),
{
}

/// The loops of polygon `i` are the entries of the flat vertex-index buffer
/// that start at its loop start: entry `starts[i] + k` is the vertex of its
/// loop `k`, for every `k` below its loop total.
pub proof fn lemma_polygon_loops_in_buffer<F>(faces: Seq<SolidFace<F>>, i: int, k: int)
    requires
        0 <= i < faces.len(),
        0 <= k < faces[i].vertice_indices@.len(),
    ensures
        group_start(face_loops(faces), i) + k < face_loops(faces).flatten().len(),
        face_loops(faces).flatten()[group_start(face_loops(faces), i) + k]
            == faces[i].vertice_indices@[k],
{
    lemma_flatten_index(face_loops(faces), i, k);
}

/// Whether every polygon carries one uv pair and one color per loop.
pub open spec fn loop_data_complete<F>(faces: Seq<SolidFace<F>>) -> bool {
    forall|j: int|
        0 <= j < faces.len() ==> {
            &&& (#[trigger] faces[j]).loop_uvs@.len() == faces[j].vertice_indices@.len()
            &&& faces[j].loop_colors@.len() == faces[j].vertice_indices@.len()
        }
}

/// With one uv pair per loop, the uv buffer holds two values per loop, and
/// the uv of loop `k` of polygon `i` sits at `2 * (starts[i] + k)`.
pub proof fn lemma_loop_uv_layout<F>(faces: Seq<SolidFace<F>>, i: int, k: int, c: int)
    requires
        loop_data_complete(faces),
        0 <= i < faces.len(),
        0 <= k < faces[i].vertice_indices@.len(),
        0 <= c < 2,
    ensures
        face_uvs(faces).flatten().len() == 2 * face_loops(faces).flatten().len(),
        2 * (group_start(face_loops(faces), i) + k) + c < face_uvs(faces).flatten().len(),
        face_uvs(faces).flatten()[2 * (group_start(face_loops(faces), i) + k) + c]
            == faces[i].loop_uvs@[k]@[c],
{
    let loops = face_loops(faces);
    let uvs = face_uvs(faces);
    assert forall|j: int| 0 <= j < loops.len() implies (#[trigger] uvs[j]).len() == 2
        * loops[j].len() by {
        lemma_flat_arrays_len(faces[j].loop_uvs@);
    }
    lemma_scaled_group_start(loops, uvs, 2, i);
    lemma_scaled_group_start(loops, uvs, 2, loops.len() as int);
    lemma_flatten_split(loops, loops.len() as int);
    lemma_flatten_split(uvs, uvs.len() as int);
    lemma_flat_arrays_index(faces[i].loop_uvs@, k, c);
    lemma_flatten_index(uvs, i, 2 * k + c);
    assert(2 * (group_start(loops, i) + k) + c == 2 * group_start(loops, i) + (2 * k + c))
        by (nonlinear_arith);
}

/// With one color per loop, the color buffer holds four values per loop, and
/// the color of loop `k` of polygon `i` sits at `4 * (starts[i] + k)`.
pub proof fn lemma_loop_color_layout<F>(faces: Seq<SolidFace<F>>, i: int, k: int, c: int)
    requires
        loop_data_complete(faces),
        0 <= i < faces.len(),
        0 <= k < faces[i].vertice_indices@.len(),
        0 <= c < 4,
    ensures
        face_colors(faces).flatten().len() == 4 * face_loops(faces).flatten().len(),
        4 * (group_start(face_loops(faces), i) + k) + c < face_colors(faces).flatten().len(),
        face_colors(faces).flatten()[4 * (group_start(face_loops(faces), i) + k) + c]
            == faces[i].loop_colors@[k]@[c],
{
    let loops = face_loops(faces);
    let colors = face_colors(faces);
    assert forall|j: int| 0 <= j < loops.len() implies (#[trigger] colors[j]).len() == 4
        * loops[j].len() by {
        lemma_flat_arrays_len(faces[j].loop_colors@);
    }
    lemma_scaled_group_start(loops, colors, 4, i);
    lemma_scaled_group_start(loops, colors, 4, loops.len() as int);
    lemma_flatten_split(loops, loops.len() as int);
    lemma_flatten_split(colors, colors.len() as int);
    lemma_flat_arrays_index(faces[i].loop_colors@, k, c);
    lemma_flatten_index(colors, i, 4 * k + c);
    assert(4 * (group_start(loops, i) + k) + c == 4 * group_start(loops, i) + (4 * k + c))
        by (nonlinear_arith);
}

/// The vertex buffer holds three coordinates per vertex, coordinate `c` of
/// vertex `v` at `3 * v + c`.
pub proof fn lemma_vertex_layout<F>(vertices: Seq<[F; 3]>, v: int, c: int)
    requires
        0 <= v < vertices.len(),
        0 <= c < 3,
    ensures
        flat_arrays(vertices).len() == 3 * vertices.len(),
        flat_arrays(vertices)[3 * v + c] == vertices[v]@[c],
{
    lemma_flat_arrays_index(vertices, v, c);
}

} // verus!
