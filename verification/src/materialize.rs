//! World materialization: turning one scene's declarative entity, camera
//! and light descriptions into live world rows, all-or-nothing. The asset
//! collaborator constructs models outside; materialization takes the
//! resulting handles as plain values, one per declared entity, and fails
//! without touching the previous world when any is missing.

use vstd::prelude::*;

use crate::camera::{
    camera_from_config, default_debug_camera, spec_camera_from_config, spec_default_debug_camera,
};
use crate::catalogue::{find_scene, find_source, SceneCatalogue};
use crate::data::{
    CameraConfig, CameraConfigV, CameraType, EntityConfig, EntityConfigV, LightConfig,
    ScriptRefV, SceneConfigV,
};
use crate::sequencer::{
    LoadError, Phase, RuntimeScene, RuntimeSceneV, ScriptError, Warning, WarningV,
};
use crate::world::{EntityHandle, EntityRecord, EntityRecordV, ScriptBinding, ScriptBindingV,
    World};

verus! {

/// The script binding an entity opens with: present exactly when the entity
/// declares a script whose source is in the package; an entity whose source
/// is missing is left unscripted.
pub open spec fn spec_binding_for(
    script: Option<ScriptRefV>,
    scripts: Seq<(Seq<char>, Seq<char>)>,
) -> Option<ScriptBindingV> {
    match script {
        Some(sr) => if find_source(scripts, sr.name) is Some {
            Some(ScriptBindingV { name: sr.name })
        } else {
            None
        },
        None => None,
    }
}

/// The world row a declared entity materializes into, given its constructed
/// model handle.
pub open spec fn spec_model_row(
    e: EntityConfigV,
    model: u64,
    scripts: Seq<(Seq<char>, Seq<char>)>,
) -> EntityRecordV {
    EntityRecordV {
        label: e.label,
        model: Some(model),
        transform: Some(e.transform),
        properties: e.properties,
        script: spec_binding_for(e.script, scripts),
        camera: None,
        light: None,
    }
}

/// The rows of all declared entities, in declaration order.
pub open spec fn spec_entity_rows(
    entities: Seq<EntityConfigV>,
    models: Seq<u64>,
    scripts: Seq<(Seq<char>, Seq<char>)>,
) -> Seq<EntityRecordV> {
    Seq::new(entities.len(), |i: int| spec_model_row(entities[i], models[i], scripts))
}

/// Whether the asset collaborator produced a model for every declared
/// entity; materialization is all-or-nothing, so one missing model fails
/// the whole scene load.
pub open spec fn spec_models_ok(models: Seq<Option<u64>>, n: int) -> bool {
    models.len() == n && (forall|i: int| 0 <= i < n ==> models[i] is Some)
}

/// The constructed model handles, one per entity.
pub open spec fn spec_unwrap_models(models: Seq<Option<u64>>) -> Seq<u64> {
    Seq::new(models.len(), |i: int| models[i]->Some_0)
}

/// Usable camera specs: at least one camera, at most one of each kind.
pub open spec fn spec_cameras_well_formed(cams: Seq<CameraConfigV>) -> bool {
    cams.len() > 0 && (forall|i: int, j: int|
        0 <= i < j < cams.len() ==> cams[i].camera_type != cams[j].camera_type)
}

/// The world row a declared camera materializes into: a camera component on
/// an entity of its own.
pub open spec fn spec_camera_row(c: CameraConfigV) -> EntityRecordV {
    EntityRecordV {
        label: Seq::empty(),
        model: None,
        transform: None,
        properties: Seq::empty(),
        script: None,
        camera: Some(spec_camera_from_config(c)),
        light: None,
    }
}

/// The row of the synthesized fallback debug camera.
pub open spec fn spec_fallback_camera_row() -> EntityRecordV {
    EntityRecordV {
        label: Seq::empty(),
        model: None,
        transform: None,
        properties: Seq::empty(),
        script: None,
        camera: Some(spec_default_debug_camera()),
        light: None,
    }
}

/// The camera rows of a scene: its declared cameras when they are usable;
/// otherwise — none declared, or several of one kind — the single
/// synthesized fallback debug camera, so the scene stays renderable.
pub open spec fn spec_camera_rows(cams: Seq<CameraConfigV>) -> Seq<EntityRecordV> {
    if spec_cameras_well_formed(cams) {
        Seq::new(cams.len(), |i: int| spec_camera_row(cams[i]))
    } else {
        seq![spec_fallback_camera_row()]
    }
}

/// The world row a declared light materializes into.
pub open spec fn spec_light_row(l: LightConfig) -> EntityRecordV {
    EntityRecordV {
        label: Seq::empty(),
        model: None,
        transform: None,
        properties: Seq::empty(),
        script: None,
        camera: None,
        light: Some(l),
    }
}

/// The rows of all declared lights, in declaration order.
pub open spec fn spec_light_rows(lights: Seq<LightConfig>) -> Seq<EntityRecordV> {
    Seq::new(lights.len(), |i: int| spec_light_row(lights[i]))
}

/// Everything a scene materializes into: entity rows, then camera rows,
/// then light rows, in declaration order.
pub open spec fn spec_materialized_rows(
    scene: SceneConfigV,
    models: Seq<u64>,
    scripts: Seq<(Seq<char>, Seq<char>)>,
) -> Seq<EntityRecordV> {
    spec_entity_rows(scene.entities, models, scripts) + spec_camera_rows(scene.camera_specs)
        + spec_light_rows(scene.light_specs)
}

/// The position of the first declared camera of a kind, if any.
pub open spec fn first_index_of_camera_type(cams: Seq<CameraConfigV>, t: CameraType) -> Option<
    int,
>
    decreases cams.len(),
{
    if cams.len() == 0 {
        None
    } else if cams[0].camera_type == t {
        Some(0)
    } else {
        match first_index_of_camera_type(cams.drop_first(), t) {
            Some(i) => Some(i + 1),
            None => None,
        }
    }
}

/// The first index of a camera kind is indeed the first: it carries the
/// kind and nothing before it does; absence means no camera carries it.
pub proof fn lemma_first_index_of_camera_type(cams: Seq<CameraConfigV>, t: CameraType)
    ensures
        (match first_index_of_camera_type(cams, t) {
            Some(i) => {
                &&& 0 <= i < cams.len()
                &&& cams[i].camera_type == t
                &&& forall|j: int| 0 <= j < i ==> cams[j].camera_type != t
            },
            None => forall|j: int| 0 <= j < cams.len() ==> cams[j].camera_type != t,
        }),
    decreases cams.len(),
{
    if cams.len() == 0 {
    } else if cams[0].camera_type == t {
    } else {
        lemma_first_index_of_camera_type(cams.drop_first(), t);
        match first_index_of_camera_type(cams.drop_first(), t) {
            Some(i) => {
                assert(cams.drop_first()[i] == cams[i + 1]);
                assert forall|j: int| 0 <= j < i + 1 implies cams[j].camera_type != t by {
                    if j > 0 {
                        assert(cams.drop_first()[j - 1] == cams[j]);
                    }
                }
            },
            None => {
                assert forall|j: int| 0 <= j < cams.len() implies cams[j].camera_type != t by {
                    if j > 0 {
                        assert(cams.drop_first()[j - 1] == cams[j]);
                    }
                }
            },
        }
    }
}

/// Which camera row block offset becomes active: the declared `Player`
/// camera when there is one, else the declared `Debug` camera, else — the
/// specs being unusable — the synthesized fallback at offset zero.
pub open spec fn spec_active_camera_offset(cams: Seq<CameraConfigV>) -> int {
    if !spec_cameras_well_formed(cams) {
        0
    } else {
        match first_index_of_camera_type(cams, CameraType::Player) {
            Some(i) => i,
            None => match first_index_of_camera_type(cams, CameraType::Debug) {
                Some(i) => i,
                None => 0,
            },
        }
    }
}

/// The row index of the camera that becomes active after materializing a
/// scene: right after the entity block, at the active camera offset.
pub open spec fn spec_active_camera_index(scene: SceneConfigV) -> int {
    scene.entities.len() + spec_active_camera_offset(scene.camera_specs)
}

/// The source-missing warnings of the entities from index `i` on: one per
/// entity that declares a script whose source is not in the package, under
/// the handle the entity materializes into.
pub open spec fn spec_source_warnings(
    entities: Seq<EntityConfigV>,
    scripts: Seq<(Seq<char>, Seq<char>)>,
    generation: u64,
    i: int,
) -> Seq<WarningV>
    decreases entities.len() - i,
{
    if i < 0 || i >= entities.len() {
        Seq::empty()
    } else {
        let rest = spec_source_warnings(entities, scripts, generation, i + 1);
        match entities[i].script {
            Some(sr) => if find_source(scripts, sr.name) is None {
                seq![
                    WarningV::ScriptFailure {
                        entity: EntityHandle { index: i as usize, generation },
                        name: sr.name,
                        error: ScriptError::SourceMissing,
                    },
                ] + rest
            } else {
                rest
            },
            None => rest,
        }
    }
}

/// Every warning one scene load reports: a source-missing warning per
/// affected entity, then a fallback warning when the camera specs were
/// unusable.
pub open spec fn spec_load_warnings(
    scene: SceneConfigV,
    scripts: Seq<(Seq<char>, Seq<char>)>,
    generation: u64,
) -> Seq<WarningV> {
    spec_source_warnings(scene.entities, scripts, generation, 0) + (
    if !spec_cameras_well_formed(scene.camera_specs) {
        seq![WarningV::CameraFallback]
    } else {
        Seq::empty()
    })
}

/// What loading a scene does to the sequencer: an unknown name or missing
/// models change nothing and name the error; otherwise the old bindings and
/// world are discarded, the scene's rows stand under a stepped generation,
/// the activation policy picks the active camera, the scene name and phase
/// are set, and the load's warnings are appended. Catalogue, input, pending
/// command and pipeline are untouched either way.
pub open spec fn spec_load_outcome(
    pre: RuntimeSceneV,
    post: RuntimeSceneV,
    name: Seq<char>,
    models: Seq<Option<u64>>,
    r: Result<(), LoadError>,
) -> bool {
    match find_scene(pre.catalogue.scenes, name) {
        None => r == Err::<(), LoadError>(LoadError::SceneNotFound) && post == pre,
        Some(scene) => {
            if !spec_models_ok(models, scene.entities.len() as int) {
                r == Err::<(), LoadError>(LoadError::AssetFailure) && post == pre
            } else {
                &&& r == Ok::<(), LoadError>(())
                &&& post.world.generation == pre.world.generation + 1
                &&& post.world.rows == spec_materialized_rows(
                    scene,
                    spec_unwrap_models(models),
                    pre.catalogue.scripts,
                )
                &&& post.active_camera matches Some(h) && h.index as int
                    == spec_active_camera_index(scene) && h.generation == post.world.generation
                &&& post.current_scene_name == name
                &&& post.phase == Phase::Loaded
                &&& post.warnings == pre.warnings + spec_load_warnings(
                    scene,
                    pre.catalogue.scripts,
                    post.world.generation,
                )
                &&& post.catalogue == pre.catalogue
                &&& post.input == pre.input
                &&& post.scene_command == pre.scene_command
                &&& post.pipeline == pre.pipeline
            }
        },
    }
}

/// Copy a property bag.
fn clone_pairs(src: &Vec<(String, String)>) -> (r: Vec<(String, String)>)
    ensures
        r.deep_view() == src.deep_view(),
{
    let mut r: Vec<(String, String)> = Vec::new();
    let n = src.len();
    let mut i: usize = 0;
    while i < n
        invariant
            n == src@.len(),
            i <= n,
            r.deep_view() == src.deep_view().take(i as int),
        decreases n - i,
    {
        let ghost prev = r.deep_view();
        r.push((src[i].0.clone(), src[i].1.clone()));
        proof {
            assert(r.deep_view() =~= prev.push(src@[i as int].deep_view()));
            assert(src.deep_view().take(i + 1) =~= src.deep_view().take(i as int).push(
                src.deep_view()[i as int],
            ));
        }
        i = i + 1;
    }
    proof {
        assert(src.deep_view().take(n as int) =~= src.deep_view());
    }
    r
}

/// Build the world row for one declared entity; also says whether the
/// entity asked for a script whose source is missing.
fn build_model_record(e: &EntityConfig, model: u64, cat: &SceneCatalogue) -> (r: (
    EntityRecord,
    bool,
))
    ensures
        r.0@ == spec_model_row(e@, model, cat@.scripts),
        r.1 == (e@.script matches Some(sr) && find_source(cat@.scripts, sr.name) is None),
{
    let mut missing = false;
    let binding: Option<ScriptBinding> = match &e.script {
        Some(sr) => match cat.lookup_script(&sr.name) {
            Some(_) => Some(ScriptBinding { name: sr.name.clone() }),
            None => {
                missing = true;
                None
            },
        },
        None => None,
    };
    let rec = EntityRecord {
        label: e.label.clone(),
        model: Some(model),
        transform: Some(e.transform),
        properties: clone_pairs(&e.properties),
        script: binding,
        camera: None,
        light: None,
    };
    (rec, missing)
}

/// Whether a model handle arrived for every declared entity.
fn models_ok(models: &Vec<Option<u64>>, n: usize) -> (r: bool)
    ensures
        r == spec_models_ok(models@, n as int),
{
    if models.len() != n {
        return false;
    }
    let mut i: usize = 0;
    while i < n
        invariant
            n == models@.len(),
            i <= n,
            forall|j: int| 0 <= j < i ==> models@[j] is Some,
        decreases n - i,
    {
        if models[i].is_none() {
            return false;
        }
        i = i + 1;
    }
    true
}

/// Whether the declared camera specs are usable: at least one camera, at
/// most one of each kind.
fn cameras_well_formed(cams: &Vec<CameraConfig>) -> (r: bool)
    ensures
        r == spec_cameras_well_formed(cams.deep_view()),
{
    let ghost dv = cams.deep_view();
    let n = cams.len();
    if n == 0 {
        return false;
    }
    let mut i: usize = 0;
    while i < n
        invariant
            dv == cams.deep_view(),
            n == dv.len(),
            i <= n,
            forall|a: int, b: int|
                0 <= a < b < n && a < i ==> dv[a].camera_type != dv[b].camera_type,
        decreases n - i,
    {
        let mut j: usize = i + 1;
        while j < n
            invariant
                dv == cams.deep_view(),
                n == dv.len(),
                i < j,
                i < n,
                j <= n,
                forall|b: int| i < b < j ==> dv[i as int].camera_type != dv[b].camera_type,
            decreases n - j,
        {
            if cams[i].camera_type == cams[j].camera_type {
                proof {
                    assert(dv[i as int].camera_type == dv[j as int].camera_type);
                }
                return false;
            }
            proof {
                assert(dv[i as int].camera_type != dv[j as int].camera_type);
            }
            j = j + 1;
        }
        i = i + 1;
    }
    true
}

/// Materialize the entity block: spawn one row per declared entity, in
/// declaration order, and report each entity whose script source is
/// missing from the package.
fn spawn_entity_rows(
    world: &mut World,
    warnings: &mut Vec<Warning>,
    entities: &Vec<EntityConfig>,
    models: &Vec<Option<u64>>,
    cat: &SceneCatalogue,
)
    requires
        old(world)@.rows.len() == 0,
        spec_models_ok(models@, entities.deep_view().len() as int),
    ensures
        final(world)@.generation == old(world)@.generation,
        final(world)@.rows == spec_entity_rows(
            entities.deep_view(),
            spec_unwrap_models(models@),
            cat@.scripts,
        ),
        final(warnings).deep_view() == old(warnings).deep_view() + spec_source_warnings(
            entities.deep_view(),
            cat@.scripts,
            old(world)@.generation,
            0,
        ),
{
    let ghost edv = entities.deep_view();
    let ghost ms = spec_unwrap_models(models@);
    let gen_now: u64 = world.generation;
    let ghost gen = old(world)@.generation;
    let ghost old_w = old(warnings).deep_view();
    let ghost mut built = Seq::<WarningV>::empty();
    let n = entities.len();
    let mut i: usize = 0;
    proof {
        assert(edv.len() == entities@.len());
    }
    while i < n
        invariant
            edv == entities.deep_view(),
            ms == spec_unwrap_models(models@),
            n == edv.len(),
            spec_models_ok(models@, n as int),
            i <= n,
            gen_now == gen,
            world@.generation == gen,
            world@.rows.len() == i,
            forall|j: int| 0 <= j < i ==> world@.rows[j] == spec_model_row(edv[j], ms[j], cat@.scripts),
            warnings.deep_view() == old_w + built,
            spec_source_warnings(edv, cat@.scripts, gen, 0) == built + spec_source_warnings(
                edv,
                cat@.scripts,
                gen,
                i as int,
            ),
        decreases n - i,
    {
        let model: u64 = match models[i] {
            Some(m) => m,
            None => {
                proof {
                    assert(models@[i as int] is Some);
                }
                0
            },
        };
        let (rec, missing) = build_model_record(&entities[i], model, cat);
        proof {
            assert(entities@[i as int].deep_view() == edv[i as int]);
            assert(ms[i as int] == models@[i as int]->Some_0);
        }
        let _ = world.spawn(rec);
        if missing {
            let name: String = match &entities[i].script {
                Some(sr) => sr.name.clone(),
                None => {
                    proof {
                        assert(false);
                    }
                    String::new()
                },
            };
            let ghost w = WarningV::ScriptFailure {
                entity: EntityHandle { index: i, generation: gen },
                name: name@,
                error: ScriptError::SourceMissing,
            };
            let ghost prev_w = warnings.deep_view();
            warnings.push(
                Warning::ScriptFailure {
                    entity: EntityHandle { index: i, generation: gen_now },
                    name,
                    error: ScriptError::SourceMissing,
                },
            );
            proof {
                assert(warnings.deep_view() =~= prev_w.push(w));
                assert((built + (seq![w] + spec_source_warnings(edv, cat@.scripts, gen, i + 1)))
                    =~= (built.push(w) + spec_source_warnings(edv, cat@.scripts, gen, i + 1)));
                assert((old_w + built).push(w) =~= old_w + built.push(w));
                built = built.push(w);
            }
        }
        i = i + 1;
    }
    proof {
        assert(world@.rows =~= spec_entity_rows(edv, ms, cat@.scripts));
        assert(built + spec_source_warnings(edv, cat@.scripts, gen, n as int) =~= built);
    }
}

/// Find the first declared camera of a kind.
fn find_camera_offset(cams: &Vec<CameraConfig>, t: CameraType) -> (r: Option<usize>)
    ensures
        (match first_index_of_camera_type(cams.deep_view(), t) {
            Some(i) => r matches Some(k) && k as int == i,
            None => r is None,
        }),
{
    let ghost cdv = cams.deep_view();
    proof {
        lemma_first_index_of_camera_type(cdv, t);
    }
    let n = cams.len();
    let mut k: usize = 0;
    while k < n
        invariant
            cdv == cams.deep_view(),
            n == cdv.len(),
            k <= n,
            forall|j: int| 0 <= j < k ==> cdv[j].camera_type != t,
        decreases n - k,
    {
        if cams[k].camera_type == t {
            proof {
                lemma_first_index_of_camera_type(cdv, t);
                assert(cdv[k as int].camera_type == t);
            }
            return Some(k);
        }
        k = k + 1;
    }
    proof {
        lemma_first_index_of_camera_type(cdv, t);
    }
    None
}

/// Materialize the camera block: the declared cameras when usable, else the
/// synthesized fallback debug camera with a recoverable warning; return the
/// block offset of the camera the activation policy picks.
fn spawn_camera_rows(
    world: &mut World,
    warnings: &mut Vec<Warning>,
    cams: &Vec<CameraConfig>,
) -> (offset: usize)
    ensures
        final(world)@.generation == old(world)@.generation,
        final(world)@.rows == old(world)@.rows + spec_camera_rows(cams.deep_view()),
        offset as int == spec_active_camera_offset(cams.deep_view()),
        offset < spec_camera_rows(cams.deep_view()).len(),
        spec_camera_rows(cams.deep_view())[offset as int].camera is Some,
        final(warnings).deep_view() == old(warnings).deep_view() + (
        if !spec_cameras_well_formed(cams.deep_view()) {
            seq![WarningV::CameraFallback]
        } else {
            Seq::<WarningV>::empty()
        }),
{
    let ghost cdv = cams.deep_view();
    let ghost base = old(world)@.rows;
    if cameras_well_formed(cams) {
        let n = cams.len();
        let mut i: usize = 0;
        while i < n
            invariant
                cdv == cams.deep_view(),
                n == cdv.len(),
                i <= n,
                spec_cameras_well_formed(cdv),
                world@.generation == old(world)@.generation,
                world@.rows.len() == base.len() + i,
                forall|j: int| 0 <= j < base.len() ==> world@.rows[j] == base[j],
                forall|j: int|
                    0 <= j < i ==> world@.rows[base.len() + j] == spec_camera_row(cdv[j]),
            decreases n - i,
        {
            let rec = EntityRecord {
                label: String::new(),
                model: None,
                transform: None,
                properties: Vec::new(),
                script: None,
                camera: Some(camera_from_config(&cams[i])),
                light: None,
            };
            proof {
                assert(rec@.properties =~= Seq::<(Seq<char>, Seq<char>)>::empty());
                assert(rec@ == spec_camera_row(cdv[i as int]));
            }
            let _ = world.spawn(rec);
            i = i + 1;
        }
        proof {
            assert(world@.rows =~= base + spec_camera_rows(cdv));
        }
        let offset: usize = match find_camera_offset(cams, CameraType::Player) {
            Some(k) => k,
            None => match find_camera_offset(cams, CameraType::Debug) {
                Some(k) => k,
                None => {
                    proof {
                        lemma_first_index_of_camera_type(cdv, CameraType::Player);
                        lemma_first_index_of_camera_type(cdv, CameraType::Debug);
                        assert(cdv[0].camera_type == CameraType::Player || cdv[0].camera_type
                            == CameraType::Debug);
                        assert(false);
                    }
                    0
                },
            },
        };
        proof {
            lemma_first_index_of_camera_type(cdv, CameraType::Player);
            lemma_first_index_of_camera_type(cdv, CameraType::Debug);
            assert(warnings.deep_view() =~= old(warnings).deep_view()
                + Seq::<WarningV>::empty());
        }
        offset
    } else {
        let rec = EntityRecord {
            label: String::new(),
            model: None,
            transform: None,
            properties: Vec::new(),
            script: None,
            camera: Some(default_debug_camera()),
            light: None,
        };
        proof {
            assert(rec@.properties =~= Seq::<(Seq<char>, Seq<char>)>::empty());
            assert(rec@ == spec_fallback_camera_row());
        }
        let _ = world.spawn(rec);
        let ghost prev_w = warnings.deep_view();
        warnings.push(Warning::CameraFallback);
        proof {
            assert(world@.rows =~= base + spec_camera_rows(cdv));
            assert(warnings.deep_view() =~= prev_w.push(WarningV::CameraFallback));
            assert(warnings.deep_view() =~= prev_w + seq![WarningV::CameraFallback]);
        }
        0
    }
}

/// Materialize the light block: one row per declared light, in declaration
/// order.
fn spawn_light_rows(world: &mut World, lights: &Vec<LightConfig>)
    ensures
        final(world)@.generation == old(world)@.generation,
        final(world)@.rows == old(world)@.rows + spec_light_rows(lights.deep_view()),
{
    let ghost ldv = lights.deep_view();
    let ghost base = old(world)@.rows;
    let n = lights.len();
    let mut i: usize = 0;
    while i < n
        invariant
            ldv == lights.deep_view(),
            n == ldv.len(),
            i <= n,
            world@.generation == old(world)@.generation,
            world@.rows.len() == base.len() + i,
            forall|j: int| 0 <= j < base.len() ==> world@.rows[j] == base[j],
            forall|j: int| 0 <= j < i ==> world@.rows[base.len() + j] == spec_light_row(ldv[j]),
        decreases n - i,
    {
        let rec = EntityRecord {
            label: String::new(),
            model: None,
            transform: None,
            properties: Vec::new(),
            script: None,
            camera: None,
            light: Some(lights[i]),
        };
        proof {
            assert(rec@.properties =~= Seq::<(Seq<char>, Seq<char>)>::empty());
            assert(rec@ == spec_light_row(ldv[i as int]));
        }
        let _ = world.spawn(rec);
        i = i + 1;
    }
    proof {
        assert(world@.rows =~= base + spec_light_rows(ldv));
    }
}

impl RuntimeScene {
    /// Load a scene by name: look it up, check that a model arrived for
    /// every declared entity, then — and only then — unbind all scripts,
    /// discard the previous world under a stepped generation, and
    /// materialize entities, cameras and lights in declaration order. An
    /// unknown name or a missing model reports its error and leaves the
    /// sequencer exactly as it was, the previous scene still live.
    pub fn load_scene(&mut self, scene_name: &String, models: &Vec<Option<u64>>) -> (r: Result<
        (),
        LoadError,
    >)
        requires
            old(self)@.wf(),
            old(self)@.world.generation < u64::MAX,
        ensures
            final(self)@.wf(),
            spec_load_outcome(old(self)@, final(self)@, scene_name@, models@, r),
    {
        let scene = match self.catalogue.lookup(scene_name) {
            Some(s) => s,
            None => {
                return Err(LoadError::SceneNotFound);
            },
        };
        if !models_ok(models, scene.entities.len()) {
            return Err(LoadError::AssetFailure);
        }
        let ghost scene_v = find_scene(old(self)@.catalogue.scenes, scene_name@)->Some_0;
        // Bindings are removed before the handles they refer to are
        // invalidated; then the world is rebuilt from scratch.
        self.world.unbind_all();
        self.world.clear();
        spawn_entity_rows(
            &mut self.world,
            &mut self.warnings,
            &scene.entities,
            models,
            &self.catalogue,
        );
        let entity_count = scene.entities.len();
        let offset = spawn_camera_rows(&mut self.world, &mut self.warnings, &scene.camera_specs);
        spawn_light_rows(&mut self.world, &scene.light_specs);
        let total = self.world.len();
        proof {
            assert(self@.world.rows == spec_materialized_rows(
                scene_v,
                spec_unwrap_models(models@),
                old(self)@.catalogue.scripts,
            ));
            assert(entity_count + offset < total);
        }
        let h = EntityHandle { index: entity_count + offset, generation: self.world.generation };
        self.active_camera = Some(h);
        self.current_scene_name = scene_name.clone();
        self.phase = Phase::Loaded;
        proof {
            assert(self@.world.rows[h.index as int] == spec_camera_rows(
                scene_v.camera_specs,
            )[offset as int]);
            assert(self@.warnings =~= old(self)@.warnings + spec_load_warnings(
                scene_v,
                old(self)@.catalogue.scripts,
                self@.world.generation,
            ));
        }
        Ok(())
    }

    /// Load the startup scene: the catalogue's default scene. A catalogue
    /// without scenes has no playable content, which is fatal: the error is
    /// reported and nothing is loaded.
    pub fn load(&mut self, models: &Vec<Option<u64>>) -> (r: Result<(), LoadError>)
        requires
            old(self)@.wf(),
            old(self)@.world.generation < u64::MAX,
        ensures
            final(self)@.wf(),
            (match SceneCatalogue::spec_default_scene_name(old(self)@.catalogue.scenes) {
                None => r == Err::<(), LoadError>(LoadError::NoScenesAvailable) && *final(self)
                    == *old(self),
                Some(name) => spec_load_outcome(old(self)@, final(self)@, name, models@, r),
            }),
    {
        let name = match self.catalogue.default_scene_name() {
            Some(n) => n,
            None => {
                return Err(LoadError::NoScenesAvailable);
            },
        };
        self.load_scene(&name, models)
    }

    /// Remember the render pipeline the renderer built for the loaded
    /// scene; rendering stays off until one is set.
    pub fn set_pipeline(&mut self, pipeline: u64)
        ensures
            final(self)@ == (RuntimeSceneV { pipeline: Some(pipeline), ..old(self)@ }),
            old(self)@.wf() ==> final(self)@.wf(),
    {
        self.pipeline = Some(pipeline);
    }
}

} // verus!
