//! Declarative data model of a decoded package: scenes, entities, cameras,
//! lights and script references, together with their mathematical views.

use vstd::prelude::*;

verus! {

/// Fixed-point world coordinates, one component per axis.
#[derive(Clone, Copy, Debug, PartialEq, Eq, Structural)]
pub struct Vec3 {
    pub x: i32,
    pub y: i32,
    pub z: i32,
}

impl DeepView for Vec3 {
    type V = Vec3;

    open spec fn deep_view(&self) -> Vec3 {
        *self
    }
}

/// Position, rotation and scale of an entity, in fixed-point units.
#[derive(Clone, Copy, Debug, PartialEq, Eq, Structural)]
pub struct Transform {
    pub position: Vec3,
    pub rotation: Vec3,
    pub scale: Vec3,
}

impl DeepView for Transform {
    type V = Transform;

    open spec fn deep_view(&self) -> Transform {
        *self
    }
}

/// Reference from an entity to a script: the name under which the source is
/// registered and the key or path the source was packaged from.
#[derive(Clone, Debug)]
pub struct ScriptRef {
    pub name: String,
    pub source_key: String,
}

/// Mathematical view of a `ScriptRef`.
pub struct ScriptRefV {
    pub name: Seq<char>,
    pub source_key: Seq<char>,
}

impl View for ScriptRef {
    type V = ScriptRefV;

    open spec fn view(&self) -> ScriptRefV {
        ScriptRefV { name: self.name@, source_key: self.source_key@ }
    }
}

impl DeepView for ScriptRef {
    type V = ScriptRefV;

    open spec fn deep_view(&self) -> ScriptRefV {
        self.view()
    }
}

/// Declarative description of one entity: what model it shows, where it
/// stands, its free-form properties and an optional script reference.
#[derive(Clone, Debug)]
pub struct EntityConfig {
    pub label: String,
    pub model_path: String,
    pub transform: Transform,
    pub properties: Vec<(String, String)>,
    pub script: Option<ScriptRef>,
}

/// Mathematical view of an `EntityConfig`.
pub struct EntityConfigV {
    pub label: Seq<char>,
    pub model_path: Seq<char>,
    pub transform: Transform,
    pub properties: Seq<(Seq<char>, Seq<char>)>,
    pub script: Option<ScriptRefV>,
}

impl View for EntityConfig {
    type V = EntityConfigV;

    open spec fn view(&self) -> EntityConfigV {
        EntityConfigV {
            label: self.label@,
            model_path: self.model_path@,
            transform: self.transform,
            properties: self.properties.deep_view(),
            script: self.script.deep_view(),
        }
    }
}

impl DeepView for EntityConfig {
    type V = EntityConfigV;

    open spec fn deep_view(&self) -> EntityConfigV {
        self.view()
    }
}

/// The kind of camera a scene declares; at most one camera of each kind is
/// active at a time.
#[derive(Clone, Copy, Debug, PartialEq, Eq, Structural)]
pub enum CameraType {
    Player,
    Debug,
}

impl DeepView for CameraType {
    type V = CameraType;

    open spec fn deep_view(&self) -> CameraType {
        *self
    }
}

/// A camera's follow target: the label of the entity to trail and the fixed
/// offset to keep from it.
#[derive(Clone, Debug)]
pub struct FollowTarget {
    pub target_label: String,
    pub offset: Vec3,
}

/// Mathematical view of a `FollowTarget`.
pub struct FollowTargetV {
    pub target_label: Seq<char>,
    pub offset: Vec3,
}

impl View for FollowTarget {
    type V = FollowTargetV;

    open spec fn view(&self) -> FollowTargetV {
        FollowTargetV { target_label: self.target_label@, offset: self.offset }
    }
}

impl DeepView for FollowTarget {
    type V = FollowTargetV;

    open spec fn deep_view(&self) -> FollowTargetV {
        self.view()
    }
}

/// Declarative description of one camera.
#[derive(Clone, Debug)]
pub struct CameraConfig {
    pub camera_type: CameraType,
    pub position: Vec3,
    pub look_at: Vec3,
    pub follow_target: Option<FollowTarget>,
}

/// Mathematical view of a `CameraConfig`.
pub struct CameraConfigV {
    pub camera_type: CameraType,
    pub position: Vec3,
    pub look_at: Vec3,
    pub follow_target: Option<FollowTargetV>,
}

impl View for CameraConfig {
    type V = CameraConfigV;

    open spec fn view(&self) -> CameraConfigV {
        CameraConfigV {
            camera_type: self.camera_type,
            position: self.position,
            look_at: self.look_at,
            follow_target: self.follow_target.deep_view(),
        }
    }
}

impl DeepView for CameraConfig {
    type V = CameraConfigV;

    open spec fn deep_view(&self) -> CameraConfigV {
        self.view()
    }
}

/// The kind of light a scene declares.
#[derive(Clone, Copy, Debug, PartialEq, Eq, Structural)]
pub enum LightKind {
    Directional,
    Point,
    Spot,
}

impl DeepView for LightKind {
    type V = LightKind;

    open spec fn deep_view(&self) -> LightKind {
        *self
    }
}

/// A color as three eight-bit channels.
#[derive(Clone, Copy, Debug, PartialEq, Eq, Structural)]
pub struct Rgb {
    pub red: u8,
    pub green: u8,
    pub blue: u8,
}

impl DeepView for Rgb {
    type V = Rgb;

    open spec fn deep_view(&self) -> Rgb {
        *self
    }
}

/// Declarative description of one light.
#[derive(Clone, Copy, Debug, PartialEq, Eq, Structural)]
pub struct LightConfig {
    pub kind: LightKind,
    pub transform: Transform,
    pub color: Rgb,
    pub intensity: u32,
    pub enabled: bool,
}

impl DeepView for LightConfig {
    type V = LightConfig;

    open spec fn deep_view(&self) -> LightConfig {
        *self
    }
}

/// Declarative description of one scene: its unique name and the entities,
/// cameras and lights it opens with.
#[derive(Clone, Debug)]
pub struct SceneConfig {
    pub scene_name: String,
    pub entities: Vec<EntityConfig>,
    pub camera_specs: Vec<CameraConfig>,
    pub light_specs: Vec<LightConfig>,
}

/// Mathematical view of a `SceneConfig`.
pub struct SceneConfigV {
    pub scene_name: Seq<char>,
    pub entities: Seq<EntityConfigV>,
    pub camera_specs: Seq<CameraConfigV>,
    pub light_specs: Seq<LightConfig>,
}

impl View for SceneConfig {
    type V = SceneConfigV;

    open spec fn view(&self) -> SceneConfigV {
        SceneConfigV {
            scene_name: self.scene_name@,
            entities: self.entities.deep_view(),
            camera_specs: self.camera_specs.deep_view(),
            light_specs: self.light_specs.deep_view(),
        }
    }
}

impl DeepView for SceneConfig {
    type V = SceneConfigV;

    open spec fn deep_view(&self) -> SceneConfigV {
        self.view()
    }
}

/// Decoded package contents: the declared scenes in order, and the mapping
/// from script name to script source text.
#[derive(Clone, Debug)]
pub struct RuntimeData {
    pub scenes: Vec<SceneConfig>,
    pub scripts: Vec<(String, String)>,
}

/// Mathematical view of `RuntimeData`.
pub struct RuntimeDataV {
    pub scenes: Seq<SceneConfigV>,
    pub scripts: Seq<(Seq<char>, Seq<char>)>,
}

impl View for RuntimeData {
    type V = RuntimeDataV;

    open spec fn view(&self) -> RuntimeDataV {
        RuntimeDataV { scenes: self.scenes.deep_view(), scripts: self.scripts.deep_view() }
    }
}

impl RuntimeDataV {
    /// Scene names are the sole lookup key, so they must be pairwise
    /// distinct; script sources are keyed by name in the same way.
    pub open spec fn wf(self) -> bool {
        &&& forall|i: int, j: int|
            0 <= i < j < self.scenes.len() ==> self.scenes[i].scene_name != self.scenes[
                j
            ].scene_name
        &&& forall|i: int, j: int|
            0 <= i < j < self.scripts.len() ==> self.scripts[i].0 != self.scripts[j].0
    }
}

} // verus!
