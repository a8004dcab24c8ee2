//! Import options given by keyword, and the lifecycle of an import session.
//!
//! Options arrive as keyword arguments. Each keyword is looked up here; an
//! unknown keyword, or an unknown name for an enumerated option, is refused.
//! The values themselves are extracted by the caller, which knows their types,
//! and folded into the option sets below.
use vstd::prelude::*;
use crate::text::str_equals;

verus! {

/// Why an import request was refused.
#[derive(Clone, Copy, Debug, PartialEq, Eq)]
pub enum ImportError {
    /// A keyword argument that the request does not know.
    UnexpectedKwarg,
    /// A keyword argument whose value names no known choice.
    UnexpectedKwargValue,
    /// The importer was already used up by an earlier request.
    AlreadyConsumed,
}

/// The message that goes with each refusal.
pub open spec fn import_error_message(error: ImportError) -> Seq<char> {
    match error {
        ImportError::UnexpectedKwarg => "unexpected kwarg"@,
        ImportError::UnexpectedKwargValue => "unexpected kwarg value"@,
        ImportError::AlreadyConsumed => "Importer already consumed"@,
    }
}

impl ImportError {
    /// The message that goes with this refusal.
    pub fn message(&self) -> (message: &'static str)
        ensures
            message@ == import_error_message(*self),
    {
        match self {
            ImportError::UnexpectedKwarg => "unexpected kwarg",
            ImportError::UnexpectedKwargValue => "unexpected kwarg value",
            ImportError::AlreadyConsumed => "Importer already consumed",
        }
    }
}

/// The keyword arguments that configure how assets are handed over.
#[derive(Clone, Copy, Debug, PartialEq, Eq)]
pub enum HandlerKwarg {
    ImportLights,
    LightFactor,
    SunFactor,
    AmbientFactor,
    ImportSkyCamera,
    SkyEquiHeight,
    Scale,
    TargetFps,
    RemoveAnimations,
    SimpleMaterials,
    AllowCulling,
    EditorMaterials,
    TextureInterpolation,
}

/// The handler keyword named `key`, if there is one.
pub open spec fn handler_kwarg_named(key: Seq<char>) -> Option<HandlerKwarg> {
    if key == "import_lights"@ {
        Some(HandlerKwarg::ImportLights)
    } else if key == "light_factor"@ {
        Some(HandlerKwarg::LightFactor)
    } else if key == "sun_factor"@ {
        Some(HandlerKwarg::SunFactor)
    } else if key == "ambient_factor"@ {
        Some(HandlerKwarg::AmbientFactor)
    } else if key == "import_sky_camera"@ {
        Some(HandlerKwarg::ImportSkyCamera)
    } else if key == "sky_equi_height"@ {
        Some(HandlerKwarg::SkyEquiHeight)
    } else if key == "scale"@ {
        Some(HandlerKwarg::Scale)
    } else if key == "target_fps"@ {
        Some(HandlerKwarg::TargetFps)
    } else if key == "remove_animations"@ {
        Some(HandlerKwarg::RemoveAnimations)
    } else if key == "simple_materials"@ {
        Some(HandlerKwarg::SimpleMaterials)
    } else if key == "allow_culling"@ {
        Some(HandlerKwarg::AllowCulling)
    } else if key == "editor_materials"@ {
        Some(HandlerKwarg::EditorMaterials)
    } else if key == "texture_interpolation"@ {
        Some(HandlerKwarg::TextureInterpolation)
    } else {
        None
    }
}

/// The result of looking a keyword up: the keyword, or a refusal.
pub open spec fn kwarg_lookup<K>(found: Option<K>) -> Result<K, ImportError> {
    match found {
        Some(kwarg) => Ok(kwarg),
        None => Err(ImportError::UnexpectedKwarg),
    }
}

/// Looks up a keyword argument of the asset handler.
pub fn parse_handler_kwarg(key: &str) -> (kwarg: Result<HandlerKwarg, ImportError>)
    ensures
        kwarg == kwarg_lookup(handler_kwarg_named(key@)),
{
    if str_equals(key, "import_lights") {
        Ok(HandlerKwarg::ImportLights)
    } else if str_equals(key, "light_factor") {
        Ok(HandlerKwarg::LightFactor)
    } else if str_equals(key, "sun_factor") {
        Ok(HandlerKwarg::SunFactor)
    } else if str_equals(key, "ambient_factor") {
        Ok(HandlerKwarg::AmbientFactor)
    } else if str_equals(key, "import_sky_camera") {
        Ok(HandlerKwarg::ImportSkyCamera)
    } else if str_equals(key, "sky_equi_height") {
        Ok(HandlerKwarg::SkyEquiHeight)
    } else if str_equals(key, "scale") {
        Ok(HandlerKwarg::Scale)
    } else if str_equals(key, "target_fps") {
        Ok(HandlerKwarg::TargetFps)
    } else if str_equals(key, "remove_animations") {
        Ok(HandlerKwarg::RemoveAnimations)
    } else if str_equals(key, "simple_materials") {
        Ok(HandlerKwarg::SimpleMaterials)
    } else if str_equals(key, "allow_culling") {
        Ok(HandlerKwarg::AllowCulling)
    } else if str_equals(key, "editor_materials") {
        Ok(HandlerKwarg::EditorMaterials)
    } else if str_equals(key, "texture_interpolation") {
        Ok(HandlerKwarg::TextureInterpolation)
    } else {
        Err(ImportError::UnexpectedKwarg)
    }
}


/// An asset handler option together with its value. `F` is the scalar type
/// of the numeric options, `H` the type of the sky texture height and `T`
/// that of the texture interpolation mode.
#[derive(Clone, Copy, Debug, PartialEq)]
pub enum HandlerSetting<F, H, T> {
    ImportLights(bool),
    LightFactor(F),
    SunFactor(F),
    AmbientFactor(F),
    ImportSkyCamera(bool),
    SkyEquiHeight(H),
    Scale(F),
    TargetFps(F),
    RemoveAnimations(bool),
    SimpleMaterials(bool),
    AllowCulling(bool),
    EditorMaterials(bool),
    TextureInterpolation(T),
}

/// The asset handler options that were given; `None` keeps the default.
#[derive(Clone, Copy, Debug, PartialEq)]
pub struct HandlerOptions<F, H, T> {
    pub import_lights: Option<bool>,
    pub light_factor: Option<F>,
    pub sun_factor: Option<F>,
    pub ambient_factor: Option<F>,
    pub import_sky_camera: Option<bool>,
    pub sky_equi_height: Option<H>,
    pub scale: Option<F>,
    pub target_fps: Option<F>,
    pub remove_animations: Option<bool>,
    pub simple_materials: Option<bool>,
    pub allow_culling: Option<bool>,
    pub editor_materials: Option<bool>,
    pub texture_interpolation: Option<T>,
}

/// The handler options after one more option has been given: its field takes
/// the value, every other field stays.
pub open spec fn handler_options_after<F, H, T>(
    options: HandlerOptions<F, H, T>,
    setting: HandlerSetting<F, H, T>,
) -> HandlerOptions<F, H, T> {
    match setting {
        HandlerSetting::ImportLights(b) => HandlerOptions { import_lights: Some(b), ..options },
        HandlerSetting::LightFactor(x) => HandlerOptions { light_factor: Some(x), ..options },
        HandlerSetting::SunFactor(x) => HandlerOptions { sun_factor: Some(x), ..options },
        HandlerSetting::AmbientFactor(x) => HandlerOptions { ambient_factor: Some(x), ..options },
        HandlerSetting::ImportSkyCamera(b) => HandlerOptions { import_sky_camera: Some(b), ..options },
        HandlerSetting::SkyEquiHeight(h) => HandlerOptions { sky_equi_height: Some(h), ..options },
        HandlerSetting::Scale(x) => HandlerOptions { scale: Some(x), ..options },
        HandlerSetting::TargetFps(x) => HandlerOptions { target_fps: Some(x), ..options },
        HandlerSetting::RemoveAnimations(b) => HandlerOptions { remove_animations: Some(b), ..options },
        HandlerSetting::SimpleMaterials(b) => HandlerOptions { simple_materials: Some(b), ..options },
        HandlerSetting::AllowCulling(b) => HandlerOptions { allow_culling: Some(b), ..options },
        HandlerSetting::EditorMaterials(b) => HandlerOptions { editor_materials: Some(b), ..options },
        HandlerSetting::TextureInterpolation(t) => HandlerOptions {
            texture_interpolation: Some(t),
            ..options
        },
    }
}

impl<F, H, T> HandlerOptions<F, H, T> {
    /// No option given yet: every option keeps its default.
    pub fn new() -> (options: Self)
        ensures
            options == (HandlerOptions::<F, H, T> {
                import_lights: None,
                light_factor: None,
                sun_factor: None,
                ambient_factor: None,
                import_sky_camera: None,
                sky_equi_height: None,
                scale: None,
                target_fps: None,
                remove_animations: None,
                simple_materials: None,
                allow_culling: None,
                editor_materials: None,
                texture_interpolation: None,
            }),
    {
        HandlerOptions {
            import_lights: None,
            light_factor: None,
            sun_factor: None,
            ambient_factor: None,
            import_sky_camera: None,
            sky_equi_height: None,
            scale: None,
            target_fps: None,
            remove_animations: None,
            simple_materials: None,
            allow_culling: None,
            editor_materials: None,
            texture_interpolation: None,
        }
    }

    /// Takes one more option into account; a later value of the same option
    /// replaces an earlier one.
    pub fn apply(&mut self, setting: HandlerSetting<F, H, T>)
        ensures
            *final(self) == handler_options_after(*old(self), setting),
    {
        match setting {
            HandlerSetting::ImportLights(b) => self.import_lights = Some(b),
            HandlerSetting::LightFactor(x) => self.light_factor = Some(x),
            HandlerSetting::SunFactor(x) => self.sun_factor = Some(x),
            HandlerSetting::AmbientFactor(x) => self.ambient_factor = Some(x),
            HandlerSetting::ImportSkyCamera(b) => self.import_sky_camera = Some(b),
            HandlerSetting::SkyEquiHeight(h) => self.sky_equi_height = Some(h),
            HandlerSetting::Scale(x) => self.scale = Some(x),
            HandlerSetting::TargetFps(x) => self.target_fps = Some(x),
            HandlerSetting::RemoveAnimations(b) => self.remove_animations = Some(b),
            HandlerSetting::SimpleMaterials(b) => self.simple_materials = Some(b),
            HandlerSetting::AllowCulling(b) => self.allow_culling = Some(b),
            HandlerSetting::EditorMaterials(b) => self.editor_materials = Some(b),
            HandlerSetting::TextureInterpolation(t) => self.texture_interpolation = Some(t),
        }
    }
}

/// The keyword arguments of a map (VMF) import.
#[derive(Clone, Copy, Debug, PartialEq, Eq)]
pub enum VmfKwarg {
    ImportBrushes,
    ImportOverlays,
    Epsilon,
    CutThreshold,
    MergeSolids,
    InvisibleSolids,
    ImportMaterials,
    ImportProps,
    ImportEntities,
    ImportSky,
    Scale,
}

/// The map keyword named `key`, if there is one.
pub open spec fn vmf_kwarg_named(key: Seq<char>) -> Option<VmfKwarg> {
    if key == "import_brushes"@ {
        Some(VmfKwarg::ImportBrushes)
    } else if key == "import_overlays"@ {
        Some(VmfKwarg::ImportOverlays)
    } else if key == "epsilon"@ {
        Some(VmfKwarg::Epsilon)
    } else if key == "cut_threshold"@ {
        Some(VmfKwarg::CutThreshold)
    } else if key == "merge_solids"@ {
        Some(VmfKwarg::MergeSolids)
    } else if key == "invisible_solids"@ {
        Some(VmfKwarg::InvisibleSolids)
    } else if key == "import_materials"@ {
        Some(VmfKwarg::ImportMaterials)
    } else if key == "import_props"@ {
        Some(VmfKwarg::ImportProps)
    } else if key == "import_entities"@ {
        Some(VmfKwarg::ImportEntities)
    } else if key == "import_sky"@ {
        Some(VmfKwarg::ImportSky)
    } else if key == "scale"@ {
        Some(VmfKwarg::Scale)
    } else {
        None
    }
}

/// Looks up a keyword argument of a map import.
pub fn parse_vmf_kwarg(key: &str) -> (kwarg: Result<VmfKwarg, ImportError>)
    ensures
        kwarg == kwarg_lookup(vmf_kwarg_named(key@)),
{
    if str_equals(key, "import_brushes") {
        Ok(VmfKwarg::ImportBrushes)
    } else if str_equals(key, "import_overlays") {
        Ok(VmfKwarg::ImportOverlays)
    } else if str_equals(key, "epsilon") {
        Ok(VmfKwarg::Epsilon)
    } else if str_equals(key, "cut_threshold") {
        Ok(VmfKwarg::CutThreshold)
    } else if str_equals(key, "merge_solids") {
        Ok(VmfKwarg::MergeSolids)
    } else if str_equals(key, "invisible_solids") {
        Ok(VmfKwarg::InvisibleSolids)
    } else if str_equals(key, "import_materials") {
        Ok(VmfKwarg::ImportMaterials)
    } else if str_equals(key, "import_props") {
        Ok(VmfKwarg::ImportProps)
    } else if str_equals(key, "import_entities") {
        Ok(VmfKwarg::ImportEntities)
    } else if str_equals(key, "import_sky") {
        Ok(VmfKwarg::ImportSky)
    } else if str_equals(key, "scale") {
        Ok(VmfKwarg::Scale)
    } else {
        Err(ImportError::UnexpectedKwarg)
    }
}

/// How the solids of a brush entity are turned into meshes.
#[derive(Clone, Copy, Debug, PartialEq, Eq)]
pub enum MergeSolids {
    Merge,
    Separate,
}

/// The choice named by the value of `merge_solids`, if there is one.
pub open spec fn merge_solids_named(value: Seq<char>) -> Option<MergeSolids> {
    if value == "MERGE"@ {
        Some(MergeSolids::Merge)
    } else if value == "SEPARATE"@ {
        Some(MergeSolids::Separate)
    } else {
        None
    }
}

/// The result of looking a choice up: the choice, or a refusal.
pub open spec fn value_lookup<V>(found: Option<V>) -> Result<V, ImportError> {
    match found {
        Some(value) => Ok(value),
        None => Err(ImportError::UnexpectedKwargValue),
    }
}

/// A lookup hands back what it found, and refuses the keyword or value that
/// names nothing, with the refusal that fits each.
pub proof fn lemma_lookup_results<K>(found: Option<K>)
    ensures
        found matches Some(k) ==> kwarg_lookup(found) == Ok::<K, ImportError>(k)
            && value_lookup(found) == Ok::<K, ImportError>(k),
        found is None ==> kwarg_lookup(found) == Err::<K, ImportError>(ImportError::UnexpectedKwarg)
            && value_lookup(found) == Err::<K, ImportError>(ImportError::UnexpectedKwargValue),
{
}

/// Reads the value of `merge_solids`.
pub fn parse_merge_solids(value: &str) -> (choice: Result<MergeSolids, ImportError>)
    ensures
        choice == value_lookup(merge_solids_named(value@)),
{
    if str_equals(value, "MERGE") {
        Ok(MergeSolids::Merge)
    } else if str_equals(value, "SEPARATE") {
        Ok(MergeSolids::Separate)
    } else {
        Err(ImportError::UnexpectedKwargValue)
    }
}

/// What happens to solids that are invisible in game.
#[derive(Clone, Copy, Debug, PartialEq, Eq)]
pub enum InvisibleSolids {
    Import,
    Skip,
}

/// The choice named by the value of `invisible_solids`, if there is one.
pub open spec fn invisible_solids_named(value: Seq<char>) -> Option<InvisibleSolids> {
    if value == "IMPORT"@ {
        Some(InvisibleSolids::Import)
    } else if value == "SKIP"@ {
        Some(InvisibleSolids::Skip)
    } else {
        None
    }
}

/// Reads the value of `invisible_solids`.
pub fn parse_invisible_solids(value: &str) -> (choice: Result<InvisibleSolids, ImportError>)
    ensures
        choice == value_lookup(invisible_solids_named(value@)),
{
    if str_equals(value, "IMPORT") {
        Ok(InvisibleSolids::Import)
    } else if str_equals(value, "SKIP") {
        Ok(InvisibleSolids::Skip)
    } else {
        Err(ImportError::UnexpectedKwargValue)
    }
}

/// A map import option together with its value; `F` is the scalar type of
/// the numeric options.
#[derive(Clone, Copy, Debug, PartialEq)]
pub enum VmfSetting<F> {
    ImportBrushes(bool),
    ImportOverlays(bool),
    Epsilon(F),
    CutThreshold(F),
    MergeSolids(MergeSolids),
    InvisibleSolids(InvisibleSolids),
    ImportMaterials(bool),
    ImportProps(bool),
    ImportEntities(bool),
    ImportSky(bool),
    Scale(F),
}

/// The brush geometry options that were given; `None` keeps the default.
#[derive(Clone, Copy, Debug, PartialEq)]
pub struct GeometryOptions<F> {
    pub overlays: Option<bool>,
    pub epsilon: Option<F>,
    pub cut_threshold: Option<F>,
    pub merge_solids: Option<MergeSolids>,
    pub invisible_solids: Option<InvisibleSolids>,
}

/// Whether brushes are imported, and with which geometry options.
#[derive(Clone, Copy, Debug, PartialEq)]
pub enum BrushOption<F> {
    Import(GeometryOptions<F>),
    Skip,
}

/// The map import options that were given; `None` keeps the default.
#[derive(Clone, Copy, Debug, PartialEq)]
pub struct VmfOptions<F> {
    pub import_brushes: bool,
    pub geometry: GeometryOptions<F>,
    pub import_materials: Option<bool>,
    pub import_props: Option<bool>,
    pub import_entities: Option<bool>,
    pub import_skybox: Option<bool>,
    pub scale: Option<F>,
    pub brushes: Option<BrushOption<F>>,
}

/// The brush option that the current state of the options asks for.
pub open spec fn brush_option_of<F>(import_brushes: bool, geometry: GeometryOptions<F>) -> BrushOption<F> {
    if import_brushes {
        BrushOption::Import(geometry)
    } else {
        BrushOption::Skip
    }
}

/// The options after one more option has been given: its field changes, and
/// the brush option is set anew from the brush flag and geometry options.
pub open spec fn vmf_options_after<F>(options: VmfOptions<F>, setting: VmfSetting<F>) -> VmfOptions<F> {
    let changed = match setting {
        VmfSetting::ImportBrushes(b) => VmfOptions { import_brushes: b, ..options },
        VmfSetting::ImportOverlays(b) => VmfOptions {
            geometry: GeometryOptions { overlays: Some(b), ..options.geometry },
            ..options
        },
        VmfSetting::Epsilon(x) => VmfOptions {
            geometry: GeometryOptions { epsilon: Some(x), ..options.geometry },
            ..options
        },
        VmfSetting::CutThreshold(x) => VmfOptions {
            geometry: GeometryOptions { cut_threshold: Some(x), ..options.geometry },
            ..options
        },
        VmfSetting::MergeSolids(m) => VmfOptions {
            geometry: GeometryOptions { merge_solids: Some(m), ..options.geometry },
            ..options
        },
        VmfSetting::InvisibleSolids(i) => VmfOptions {
            geometry: GeometryOptions { invisible_solids: Some(i), ..options.geometry },
            ..options
        },
        VmfSetting::ImportMaterials(b) => VmfOptions { import_materials: Some(b), ..options },
        VmfSetting::ImportProps(b) => VmfOptions { import_props: Some(b), ..options },
        VmfSetting::ImportEntities(b) => VmfOptions { import_entities: Some(b), ..options },
        VmfSetting::ImportSky(b) => VmfOptions { import_skybox: Some(b), ..options },
        VmfSetting::Scale(x) => VmfOptions { scale: Some(x), ..options },
    };
    VmfOptions {
        brushes: Some(brush_option_of(changed.import_brushes, changed.geometry)),
        ..changed
    }
}

impl<F: Copy> VmfOptions<F> {
    /// No option given yet: brushes are imported, everything else defaults.
    pub fn new() -> (options: Self)
        ensures
            options == (VmfOptions::<F> {
                import_brushes: true,
                geometry: GeometryOptions {
                    overlays: None,
                    epsilon: None,
                    cut_threshold: None,
                    merge_solids: None,
                    invisible_solids: None,
                },
                import_materials: None,
                import_props: None,
                import_entities: None,
                import_skybox: None,
                scale: None,
                brushes: None,
            }),
    {
        VmfOptions {
            import_brushes: true,
            geometry: GeometryOptions {
                overlays: None,
                epsilon: None,
                cut_threshold: None,
                merge_solids: None,
                invisible_solids: None,
            },
            import_materials: None,
            import_props: None,
            import_entities: None,
            import_skybox: None,
            scale: None,
            brushes: None,
        }
    }

    /// Takes one more option into account.
    pub fn apply(&mut self, setting: VmfSetting<F>)
        ensures
            *final(self) == vmf_options_after(*old(self), setting),
    {
        match setting {
            VmfSetting::ImportBrushes(b) => self.import_brushes = b,
            VmfSetting::ImportOverlays(b) => self.geometry.overlays = Some(b),
            VmfSetting::Epsilon(x) => self.geometry.epsilon = Some(x),
            VmfSetting::CutThreshold(x) => self.geometry.cut_threshold = Some(x),
            VmfSetting::MergeSolids(m) => self.geometry.merge_solids = Some(m),
            VmfSetting::InvisibleSolids(i) => self.geometry.invisible_solids = Some(i),
            VmfSetting::ImportMaterials(b) => self.import_materials = Some(b),
            VmfSetting::ImportProps(b) => self.import_props = Some(b),
            VmfSetting::ImportEntities(b) => self.import_entities = Some(b),
            VmfSetting::ImportSky(b) => self.import_skybox = Some(b),
            VmfSetting::Scale(x) => self.scale = Some(x),
        }
        self.brushes = Some(
            if self.import_brushes {
                BrushOption::Import(self.geometry)
            } else {
                BrushOption::Skip
            },
        );
    }
}


/// Each map option is stored as given: after an option, its field holds the
/// given value and every other option keeps its value; the brush option then
/// imports brushes with the current geometry options exactly when the brush
/// flag is set.
pub proof fn lemma_vmf_option_stored<F>(options: VmfOptions<F>, setting: VmfSetting<F>)
    ensures
        ({
        let after = vmf_options_after(options, setting);
        &&& (setting matches VmfSetting::ImportBrushes(x) ==> after.import_brushes == x)
        &&& (!(setting is ImportBrushes) ==> after.import_brushes == options.import_brushes)
        &&& (setting matches VmfSetting::ImportOverlays(x) ==> after.geometry.overlays == Some(x))
        &&& (!(setting is ImportOverlays) ==> after.geometry.overlays == options.geometry.overlays)
        &&& (setting matches VmfSetting::Epsilon(x) ==> after.geometry.epsilon == Some(x))
        &&& (!(setting is Epsilon) ==> after.geometry.epsilon == options.geometry.epsilon)
        &&& (setting matches VmfSetting::CutThreshold(x) ==> after.geometry.cut_threshold == Some(x))
        &&& (!(setting is CutThreshold) ==> after.geometry.cut_threshold == options.geometry.cut_threshold)
        &&& (setting matches VmfSetting::MergeSolids(x) ==> after.geometry.merge_solids == Some(x))
        &&& (!(setting is MergeSolids) ==> after.geometry.merge_solids == options.geometry.merge_solids)
        &&& (setting matches VmfSetting::InvisibleSolids(x) ==> after.geometry.invisible_solids == Some(x))
        &&& (!(setting is InvisibleSolids) ==> after.geometry.invisible_solids == options.geometry.invisible_solids)
        &&& (setting matches VmfSetting::ImportMaterials(x) ==> after.import_materials == Some(x))
        &&& (!(setting is ImportMaterials) ==> after.import_materials == options.import_materials)
        &&& (setting matches VmfSetting::ImportProps(x) ==> after.import_props == Some(x))
        &&& (!(setting is ImportProps) ==> after.import_props == options.import_props)
        &&& (setting matches VmfSetting::ImportEntities(x) ==> after.import_entities == Some(x))
        &&& (!(setting is ImportEntities) ==> after.import_entities == options.import_entities)
        &&& (setting matches VmfSetting::ImportSky(x) ==> after.import_skybox == Some(x))
        &&& (!(setting is ImportSky) ==> after.import_skybox == options.import_skybox)
        &&& (setting matches VmfSetting::Scale(x) ==> after.scale == Some(x))
        &&& (!(setting is Scale) ==> after.scale == options.scale)
        &&& (after.import_brushes ==> after.brushes == Some(BrushOption::Import(after.geometry)))
        &&& (!after.import_brushes ==> after.brushes == Some(BrushOption::<F>::Skip))
        }),
{
}

/// Each handler option is stored as given: after an option, its field holds
/// the given value and every other option keeps its value.
pub proof fn lemma_handler_option_stored<F, H, T>(
    options: HandlerOptions<F, H, T>,
    setting: HandlerSetting<F, H, T>,
)
    ensures
        ({
        let after = handler_options_after(options, setting);
        &&& (setting matches HandlerSetting::ImportLights(x) ==> after.import_lights == Some(x))
        &&& (!(setting is ImportLights) ==> after.import_lights == options.import_lights)
        &&& (setting matches HandlerSetting::LightFactor(x) ==> after.light_factor == Some(x))
        &&& (!(setting is LightFactor) ==> after.light_factor == options.light_factor)
        &&& (setting matches HandlerSetting::SunFactor(x) ==> after.sun_factor == Some(x))
        &&& (!(setting is SunFactor) ==> after.sun_factor == options.sun_factor)
        &&& (setting matches HandlerSetting::AmbientFactor(x) ==> after.ambient_factor == Some(x))
        &&& (!(setting is AmbientFactor) ==> after.ambient_factor == options.ambient_factor)
        &&& (setting matches HandlerSetting::ImportSkyCamera(x) ==> after.import_sky_camera == Some(x))
        &&& (!(setting is ImportSkyCamera) ==> after.import_sky_camera == options.import_sky_camera)
        &&& (setting matches HandlerSetting::SkyEquiHeight(x) ==> after.sky_equi_height == Some(x))
        &&& (!(setting is SkyEquiHeight) ==> after.sky_equi_height == options.sky_equi_height)
        &&& (setting matches HandlerSetting::Scale(x) ==> after.scale == Some(x))
        &&& (!(setting is Scale) ==> after.scale == options.scale)
        &&& (setting matches HandlerSetting::TargetFps(x) ==> after.target_fps == Some(x))
        &&& (!(setting is TargetFps) ==> after.target_fps == options.target_fps)
        &&& (setting matches HandlerSetting::RemoveAnimations(x) ==> after.remove_animations == Some(x))
        &&& (!(setting is RemoveAnimations) ==> after.remove_animations == options.remove_animations)
        &&& (setting matches HandlerSetting::SimpleMaterials(x) ==> after.simple_materials == Some(x))
        &&& (!(setting is SimpleMaterials) ==> after.simple_materials == options.simple_materials)
        &&& (setting matches HandlerSetting::AllowCulling(x) ==> after.allow_culling == Some(x))
        &&& (!(setting is AllowCulling) ==> after.allow_culling == options.allow_culling)
        &&& (setting matches HandlerSetting::EditorMaterials(x) ==> after.editor_materials == Some(x))
        &&& (!(setting is EditorMaterials) ==> after.editor_materials == options.editor_materials)
        &&& (setting matches HandlerSetting::TextureInterpolation(x) ==> after.texture_interpolation == Some(x))
        &&& (!(setting is TextureInterpolation) ==> after.texture_interpolation == options.texture_interpolation)
        }),
{
}

/// The options after a run of options, given in order.
pub open spec fn vmf_options_after_all<F>(options: VmfOptions<F>, settings: Seq<VmfSetting<F>>) -> VmfOptions<F>
    decreases settings.len(),
{
    if settings.len() == 0 {
        options
    } else {
        vmf_options_after(vmf_options_after_all(options, settings.drop_last()), settings.last())
    }
}

/// Once any option has been given, the brush option agrees with the final
/// brush flag and geometry options, whatever the order they came in.
pub proof fn lemma_brush_option_follows_final_state<F>(options: VmfOptions<F>, settings: Seq<VmfSetting<F>>)
    requires
        settings.len() > 0,
    ensures
        vmf_options_after_all(options, settings).brushes == Some(
            brush_option_of(
                vmf_options_after_all(options, settings).import_brushes,
                vmf_options_after_all(options, settings).geometry,
            ),
        ),
{
}

/// The keyword arguments of a model (MDL) import.
#[derive(Clone, Copy, Debug, PartialEq, Eq)]
pub enum MdlKwarg {
    ImportAnimations,
    ImportMaterials,
}

/// The model keyword named `key`, if there is one.
pub open spec fn mdl_kwarg_named(key: Seq<char>) -> Option<MdlKwarg> {
    if key == "import_animations"@ {
        Some(MdlKwarg::ImportAnimations)
    } else if key == "import_materials"@ {
        Some(MdlKwarg::ImportMaterials)
    } else {
        None
    }
}

/// Looks up a keyword argument of a model import.
pub fn parse_mdl_kwarg(key: &str) -> (kwarg: Result<MdlKwarg, ImportError>)
    ensures
        kwarg == kwarg_lookup(mdl_kwarg_named(key@)),
{
    if str_equals(key, "import_animations") {
        Ok(MdlKwarg::ImportAnimations)
    } else if str_equals(key, "import_materials") {
        Ok(MdlKwarg::ImportMaterials)
    } else {
        Err(ImportError::UnexpectedKwarg)
    }
}

/// The model import options that were given: materials are imported unless
/// told otherwise; `None` keeps the default for animations.
#[derive(Clone, Copy, Debug, PartialEq, Eq)]
pub struct MdlOptions {
    pub import_materials: bool,
    pub import_animations: Option<bool>,
}

impl MdlOptions {
    /// No option given yet.
    pub fn new() -> (options: Self)
        ensures
            options == (MdlOptions { import_materials: true, import_animations: None }),
    {
        MdlOptions { import_materials: true, import_animations: None }
    }

    /// Takes one more option, named by `kwarg`, with value `value`, into account.
    pub fn apply(&mut self, kwarg: MdlKwarg, value: bool)
        ensures
            *final(self) == (match kwarg {
                MdlKwarg::ImportAnimations => MdlOptions { import_animations: Some(value), ..*old(self) },
                MdlKwarg::ImportMaterials => MdlOptions { import_materials: value, ..*old(self) },
            }),
    {
        match kwarg {
            MdlKwarg::ImportAnimations => self.import_animations = Some(value),
            MdlKwarg::ImportMaterials => self.import_materials = value,
        }
    }
}

/// The kinds of asset an import hands over.
#[derive(Clone, Copy, Debug, PartialEq, Eq)]
pub enum AssetKind {
    Material,
    Texture,
    Model,
    Brush,
    Overlay,
    Prop,
    Light,
    SpotLight,
    EnvLight,
    SkyCamera,
    SkyEqui,
}

/// The name of the callback method that receives an asset of each kind.
pub open spec fn callback_method_name(kind: AssetKind) -> Seq<char> {
    match kind {
        AssetKind::Material => "material"@,
        AssetKind::Texture => "texture"@,
        AssetKind::Model => "model"@,
        AssetKind::Brush => "brush"@,
        AssetKind::Overlay => "overlay"@,
        AssetKind::Prop => "prop"@,
        AssetKind::Light => "light"@,
        AssetKind::SpotLight => "spot_light"@,
        AssetKind::EnvLight => "env_light"@,
        AssetKind::SkyCamera => "sky_camera"@,
        AssetKind::SkyEqui => "sky_equi"@,
    }
}

impl AssetKind {
    /// The name of the callback method that receives an asset of this kind.
    pub fn callback_method(&self) -> (name: &'static str)
        ensures
            name@ == callback_method_name(*self),
    {
        match self {
            AssetKind::Material => "material",
            AssetKind::Texture => "texture",
            AssetKind::Model => "model",
            AssetKind::Brush => "brush",
            AssetKind::Overlay => "overlay",
            AssetKind::Prop => "prop",
            AssetKind::Light => "light",
            AssetKind::SpotLight => "spot_light",
            AssetKind::EnvLight => "env_light",
            AssetKind::SkyCamera => "sky_camera",
            AssetKind::SkyEqui => "sky_equi",
        }
    }
}

/// An import session. The importer `I` serves requests until one of them
/// consumes it, or until it is released so that the assets it has sent can
/// be drained.
pub struct PyImporter<I> {
    importer: Option<I>,
}

impl<I> View for PyImporter<I> {
    type V = Option<I>;

    closed spec fn view(&self) -> Option<I> {
        self.importer
    }
}

impl<I> PyImporter<I> {
    /// A session around a fresh importer.
    pub fn new(importer: I) -> (session: Self)
        ensures
            session@ == Some(importer),
    {
        PyImporter { importer: Some(importer) }
    }

    /// Takes the importer out for a request that uses it up.
    pub fn consume(&mut self) -> (importer: Result<I, ImportError>)
        ensures
            final(self)@ is None,
            importer == (match old(self)@ {
                Some(i) => Ok(i),
                None => Err(ImportError::AlreadyConsumed),
            }),
    {
        match self.importer.take() {
            Some(importer) => Ok(importer),
            None => Err(ImportError::AlreadyConsumed),
        }
    }

    /// Lends the importer to a request that leaves it in place.
    pub fn borrow(&mut self) -> (importer: Result<&mut I, ImportError>)
        ensures
            old(self)@ is None ==> importer == Err::<&mut I, ImportError>(ImportError::AlreadyConsumed)
                && final(self)@ is None,
            old(self)@ is Some ==> importer is Ok && *importer->Ok_0 == old(self)@->0
                && final(self)@ == Some(*final(importer->Ok_0)),
    {
        match self.importer.as_mut() {
            Some(importer) => Ok(importer),
            None => Err(ImportError::AlreadyConsumed),
        }
    }

    /// Lets the importer go, so that the channel it sends assets on closes.
    pub fn release(&mut self)
        ensures
            final(self)@ is None,
    {
        self.importer = None;
    }
}

} // verus!
