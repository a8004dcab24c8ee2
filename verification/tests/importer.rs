use plumber::importer::{
    parse_handler_kwarg, parse_invisible_solids, parse_mdl_kwarg, parse_merge_solids,
    parse_vmf_kwarg, AssetKind, BrushOption, GeometryOptions, HandlerKwarg, HandlerOptions,
    HandlerSetting, ImportError,
    InvisibleSolids, MdlKwarg, MdlOptions, MergeSolids, PyImporter, VmfKwarg, VmfOptions,
    VmfSetting,
};
use plumber::text::str_equals;

#[test]
fn handler_kwargs_are_recognised() {
    let cases = [
        ("import_lights", HandlerKwarg::ImportLights),
        ("light_factor", HandlerKwarg::LightFactor),
        ("sun_factor", HandlerKwarg::SunFactor),
        ("ambient_factor", HandlerKwarg::AmbientFactor),
        ("import_sky_camera", HandlerKwarg::ImportSkyCamera),
        ("sky_equi_height", HandlerKwarg::SkyEquiHeight),
        ("scale", HandlerKwarg::Scale),
        ("target_fps", HandlerKwarg::TargetFps),
        ("remove_animations", HandlerKwarg::RemoveAnimations),
        ("simple_materials", HandlerKwarg::SimpleMaterials),
        ("allow_culling", HandlerKwarg::AllowCulling),
        ("editor_materials", HandlerKwarg::EditorMaterials),
        ("texture_interpolation", HandlerKwarg::TextureInterpolation),
    ];
    for (key, kwarg) in cases {
        assert_eq!(parse_handler_kwarg(key), Ok(kwarg));
    }
}

#[test]
fn unknown_handler_kwarg_is_refused() {
    assert_eq!(parse_handler_kwarg("import_light"), Err(ImportError::UnexpectedKwarg));
    assert_eq!(parse_handler_kwarg("Scale"), Err(ImportError::UnexpectedKwarg));
    assert_eq!(parse_handler_kwarg(""), Err(ImportError::UnexpectedKwarg));
}

#[test]
fn vmf_kwargs_are_recognised() {
    let cases = [
        ("import_brushes", VmfKwarg::ImportBrushes),
        ("import_overlays", VmfKwarg::ImportOverlays),
        ("epsilon", VmfKwarg::Epsilon),
        ("cut_threshold", VmfKwarg::CutThreshold),
        ("merge_solids", VmfKwarg::MergeSolids),
        ("invisible_solids", VmfKwarg::InvisibleSolids),
        ("import_materials", VmfKwarg::ImportMaterials),
        ("import_props", VmfKwarg::ImportProps),
        ("import_entities", VmfKwarg::ImportEntities),
        ("import_sky", VmfKwarg::ImportSky),
        ("scale", VmfKwarg::Scale),
    ];
    for (key, kwarg) in cases {
        assert_eq!(parse_vmf_kwarg(key), Ok(kwarg));
    }
    assert_eq!(parse_vmf_kwarg("import_lights"), Err(ImportError::UnexpectedKwarg));
}

#[test]
fn enumerated_values_are_recognised() {
    assert_eq!(parse_merge_solids("MERGE"), Ok(MergeSolids::Merge));
    assert_eq!(parse_merge_solids("SEPARATE"), Ok(MergeSolids::Separate));
    assert_eq!(parse_merge_solids("merge"), Err(ImportError::UnexpectedKwargValue));
    assert_eq!(parse_invisible_solids("IMPORT"), Ok(InvisibleSolids::Import));
    assert_eq!(parse_invisible_solids("SKIP"), Ok(InvisibleSolids::Skip));
    assert_eq!(parse_invisible_solids("IGNORE"), Err(ImportError::UnexpectedKwargValue));
}

fn no_geometry() -> GeometryOptions<f32> {
    GeometryOptions {
        overlays: None,
        epsilon: None,
        cut_threshold: None,
        merge_solids: None,
        invisible_solids: None,
    }
}

#[test]
fn vmf_options_start_with_brushes_unset() {
    let options = VmfOptions::<f32>::new();
    assert!(options.import_brushes);
    assert_eq!(options.brushes, None);
    assert_eq!(options.geometry, no_geometry());
}

#[test]
fn vmf_brush_option_follows_the_final_state() {
    let mut options = VmfOptions::<f32>::new();
    options.apply(VmfSetting::ImportBrushes(false));
    assert_eq!(options.brushes, Some(BrushOption::Skip));
    options.apply(VmfSetting::Epsilon(0.01));
    assert_eq!(options.brushes, Some(BrushOption::Skip));
    options.apply(VmfSetting::ImportBrushes(true));
    let geometry = GeometryOptions { epsilon: Some(0.01), ..no_geometry() };
    assert_eq!(options.brushes, Some(BrushOption::Import(geometry)));
    options.apply(VmfSetting::MergeSolids(MergeSolids::Separate));
    let geometry = GeometryOptions { merge_solids: Some(MergeSolids::Separate), ..geometry };
    assert_eq!(options.brushes, Some(BrushOption::Import(geometry)));
}

#[test]
fn vmf_options_record_each_setting() {
    let mut options = VmfOptions::<f32>::new();
    options.apply(VmfSetting::ImportMaterials(false));
    options.apply(VmfSetting::ImportProps(true));
    options.apply(VmfSetting::ImportEntities(false));
    options.apply(VmfSetting::ImportSky(true));
    options.apply(VmfSetting::Scale(0.01));
    options.apply(VmfSetting::ImportOverlays(false));
    options.apply(VmfSetting::CutThreshold(0.5));
    options.apply(VmfSetting::InvisibleSolids(InvisibleSolids::Skip));
    assert_eq!(options.import_materials, Some(false));
    assert_eq!(options.import_props, Some(true));
    assert_eq!(options.import_entities, Some(false));
    assert_eq!(options.import_skybox, Some(true));
    assert_eq!(options.scale, Some(0.01));
    let geometry = GeometryOptions {
        overlays: Some(false),
        cut_threshold: Some(0.5),
        invisible_solids: Some(InvisibleSolids::Skip),
        ..no_geometry()
    };
    assert_eq!(options.geometry, geometry);
    assert_eq!(options.brushes, Some(BrushOption::Import(geometry)));
}

#[test]
fn mdl_kwargs_and_options() {
    assert_eq!(parse_mdl_kwarg("import_animations"), Ok(MdlKwarg::ImportAnimations));
    assert_eq!(parse_mdl_kwarg("import_materials"), Ok(MdlKwarg::ImportMaterials));
    assert_eq!(parse_mdl_kwarg("scale"), Err(ImportError::UnexpectedKwarg));
    let mut options = MdlOptions::new();
    assert!(options.import_materials);
    assert_eq!(options.import_animations, None);
    options.apply(MdlKwarg::ImportMaterials, false);
    options.apply(MdlKwarg::ImportAnimations, true);
    assert_eq!(options, MdlOptions { import_materials: false, import_animations: Some(true) });
}

#[test]
fn importer_is_consumed_once() {
    let mut session = PyImporter::new(5u32);
    assert_eq!(session.consume(), Ok(5));
    assert_eq!(session.consume(), Err(ImportError::AlreadyConsumed));
    assert_eq!(session.borrow().err(), Some(ImportError::AlreadyConsumed));
}

#[test]
fn borrowed_importer_stays() {
    let mut session = PyImporter::new(vec![1u8]);
    session.borrow().unwrap().push(2);
    session.borrow().unwrap().push(3);
    assert_eq!(session.consume(), Ok(vec![1, 2, 3]));
}

#[test]
fn released_importer_is_gone() {
    let mut session = PyImporter::new(1i64);
    session.release();
    assert_eq!(session.consume(), Err(ImportError::AlreadyConsumed));
}

#[test]
fn error_messages() {
    assert_eq!(ImportError::UnexpectedKwarg.message(), "unexpected kwarg");
    assert_eq!(ImportError::UnexpectedKwargValue.message(), "unexpected kwarg value");
    assert_eq!(ImportError::AlreadyConsumed.message(), "Importer already consumed");
}

#[test]
fn callback_methods() {
    let cases = [
        (AssetKind::Material, "material"),
        (AssetKind::Texture, "texture"),
        (AssetKind::Model, "model"),
        (AssetKind::Brush, "brush"),
        (AssetKind::Overlay, "overlay"),
        (AssetKind::Prop, "prop"),
        (AssetKind::Light, "light"),
        (AssetKind::SpotLight, "spot_light"),
        (AssetKind::EnvLight, "env_light"),
        (AssetKind::SkyCamera, "sky_camera"),
        (AssetKind::SkyEqui, "sky_equi"),
    ];
    for (kind, name) in cases {
        assert_eq!(kind.callback_method(), name);
    }
}

#[test]
fn strings_compare_by_characters() {
    assert!(str_equals("héllo", "héllo"));
    assert!(!str_equals("héllo", "hello"));
    assert!(!str_equals("abc", "abcd"));
    assert!(str_equals("", ""));
}

#[test]
fn handler_options_record_each_setting() {
    let mut options = HandlerOptions::<f32, u32, &str>::new();
    assert_eq!(options.scale, None);
    assert_eq!(options.import_lights, None);
    options.apply(HandlerSetting::ImportLights(false));
    options.apply(HandlerSetting::LightFactor(2.0));
    options.apply(HandlerSetting::SunFactor(0.5));
    options.apply(HandlerSetting::AmbientFactor(0.25));
    options.apply(HandlerSetting::ImportSkyCamera(true));
    options.apply(HandlerSetting::SkyEquiHeight(1024));
    options.apply(HandlerSetting::Scale(0.01));
    options.apply(HandlerSetting::TargetFps(30.0));
    options.apply(HandlerSetting::RemoveAnimations(true));
    options.apply(HandlerSetting::SimpleMaterials(true));
    options.apply(HandlerSetting::AllowCulling(false));
    options.apply(HandlerSetting::EditorMaterials(true));
    options.apply(HandlerSetting::TextureInterpolation("Closest"));
    options.apply(HandlerSetting::Scale(0.02));
    let expected = HandlerOptions {
        import_lights: Some(false),
        light_factor: Some(2.0),
        sun_factor: Some(0.5),
        ambient_factor: Some(0.25),
        import_sky_camera: Some(true),
        sky_equi_height: Some(1024),
        scale: Some(0.02),
        target_fps: Some(30.0),
        remove_animations: Some(true),
        simple_materials: Some(true),
        allow_culling: Some(false),
        editor_materials: Some(true),
        texture_interpolation: Some("Closest"),
    };
    assert_eq!(options, expected);
}
