//! The per-frame half of the sequencer: applying script effects, running
//! the camera pass, handing the renderer its plan, reporting script
//! failures, switching the active camera, and tearing down on exit.
//!
//! Within a frame the order is fixed: script ticks precede camera-follow
//! resolution, which precedes the camera uniform update, which precedes
//! render submission; the mouse delta is cleared at the end of every
//! update, so it holds the movement since the last frame exactly once.

use vstd::prelude::*;

use crate::camera::{clone_camera, spec_cameras_updated, update_cameras, CameraRecord};
use crate::catalogue::find_source;
use crate::data::{CameraType, LightConfig, Rgb, ScriptRef, Transform};
use crate::input::InputStateV;
use crate::sequencer::{
    CameraError, Phase, RuntimeScene, RuntimeSceneV, SceneCommand, SceneCommandV, ScriptEffect,
    ScriptEffectV, ScriptError, Warning, WarningV,
};
use crate::world::{
    spec_with_binding, spec_with_binding_cleared, spec_with_transform, EntityHandle,
    EntityRecordV, WorldV,
};

verus! {

/// The world and pending command after a frame's script effects, applied in
/// order: a transform lands on the entity its handle points at — a stale
/// handle moves nothing — and switch or quit requests replace the pending
/// command, last request standing.
pub open spec fn spec_apply_effects(
    w: WorldV,
    cmd: SceneCommandV,
    effects: Seq<ScriptEffectV>,
) -> (WorldV, SceneCommandV)
    decreases effects.len(),
{
    if effects.len() == 0 {
        (w, cmd)
    } else {
        let stepped = match effects[0] {
            ScriptEffectV::SetTransform(h, t) => (spec_with_transform(w, h, t), cmd),
            ScriptEffectV::RequestSwitch(name) => (w, SceneCommandV::SwitchScene(name)),
            ScriptEffectV::RequestQuit => (w, SceneCommandV::Quit),
        };
        spec_apply_effects(stepped.0, stepped.1, effects.drop_first())
    }
}

/// Script effects only move entities: the generation, the row count, and
/// every component but the transforms are untouched.
pub proof fn lemma_apply_effects_preserves(
    w: WorldV,
    cmd: SceneCommandV,
    effects: Seq<ScriptEffectV>,
)
    ensures
        spec_apply_effects(w, cmd, effects).0.generation == w.generation,
        spec_apply_effects(w, cmd, effects).0.rows.len() == w.rows.len(),
        forall|i: int|
            0 <= i < w.rows.len() ==> {
                &&& #[trigger] spec_apply_effects(w, cmd, effects).0.rows[i].camera
                    == w.rows[i].camera
                &&& spec_apply_effects(w, cmd, effects).0.rows[i].script == w.rows[i].script
                &&& spec_apply_effects(w, cmd, effects).0.rows[i].label == w.rows[i].label
                &&& spec_apply_effects(w, cmd, effects).0.rows[i].model == w.rows[i].model
                &&& spec_apply_effects(w, cmd, effects).0.rows[i].light == w.rows[i].light
            },
    decreases effects.len(),
{
    if effects.len() == 0 {
    } else {
        match effects[0] {
            ScriptEffectV::SetTransform(h, t) => {
                lemma_apply_effects_preserves(
                    spec_with_transform(w, h, t),
                    cmd,
                    effects.drop_first(),
                );
            },
            ScriptEffectV::RequestSwitch(name) => {
                lemma_apply_effects_preserves(w, SceneCommandV::SwitchScene(name), effects.drop_first());
            },
            ScriptEffectV::RequestQuit => {
                lemma_apply_effects_preserves(w, SceneCommandV::Quit, effects.drop_first());
            },
        }
    }
}

/// The mouse-look input waiting on the active camera: what the camera
/// uniform update will consume this frame; nothing without an accepted
/// active camera.
pub open spec fn spec_pending_look(w: WorldV, active: Option<EntityHandle>) -> (i64, i64) {
    match active {
        Some(h) => {
            if w.valid(h) && w.rows[h.index as int].camera is Some {
                let c = w.rows[h.index as int].camera->Some_0;
                (c.pending_look_x, c.pending_look_y)
            } else {
                (0, 0)
            }
        },
        None => (0, 0),
    }
}

/// What one frame update does: the script effects land first, then every
/// camera resolves its follow target and consumes its mouse-look input, and
/// the mouse delta is cleared so the next frame starts empty. The returned
/// look is what the active camera consumed. Everything else stands.
pub open spec fn spec_update_outcome(
    pre: RuntimeSceneV,
    post: RuntimeSceneV,
    effects: Seq<ScriptEffectV>,
    look: (i64, i64),
) -> bool {
    let stepped = spec_apply_effects(pre.world, pre.scene_command, effects);
    &&& post == (RuntimeSceneV {
        world: spec_cameras_updated(stepped.0),
        scene_command: stepped.1,
        input: (InputStateV { mouse_delta: None, ..pre.input }),
        ..pre
    })
    &&& look == spec_pending_look(stepped.0, pre.active_camera)
}

/// The script bindings to tick this frame, from row `i` on: one entry per
/// bound entity, under its current handle, in row order — the order carries
/// no meaning for scripts.
pub open spec fn spec_tick_list(w: WorldV, i: int) -> Seq<(EntityHandle, Seq<char>)>
    decreases w.rows.len() - i,
{
    if i < 0 || i >= w.rows.len() {
        Seq::empty()
    } else {
        let rest = spec_tick_list(w, i + 1);
        match w.rows[i].script {
            Some(b) => seq![
                (EntityHandle { index: i as usize, generation: w.generation }, b.name),
            ] + rest,
            None => rest,
        }
    }
}

/// The enabled lights among the rows from `i` on, in row order.
pub open spec fn spec_enabled_lights(rows: Seq<EntityRecordV>, i: int) -> Seq<LightConfig>
    decreases rows.len() - i,
{
    if i < 0 || i >= rows.len() {
        Seq::empty()
    } else {
        let rest = spec_enabled_lights(rows, i + 1);
        match rows[i].light {
            Some(l) => if l.enabled {
                seq![l] + rest
            } else {
                rest
            },
            None => rest,
        }
    }
}

/// The draw submissions among the rows from `i` on: every entity that
/// shows a model and has a transform, in row order.
pub open spec fn spec_draw_list(rows: Seq<EntityRecordV>, i: int) -> Seq<(u64, Transform)>
    decreases rows.len() - i,
{
    if i < 0 || i >= rows.len() {
        Seq::empty()
    } else {
        let rest = spec_draw_list(rows, i + 1);
        if rows[i].model is Some && rows[i].transform is Some {
            seq![(rows[i].model->Some_0, rows[i].transform->Some_0)] + rest
        } else {
            rest
        }
    }
}

/// Everything the external renderer needs for one render pass: the
/// pipeline, the active camera's state, the clear color, the enabled
/// lights, and one draw per visible entity.
pub struct RenderPlan {
    pub pipeline: u64,
    pub camera: CameraRecord,
    pub clear_color: Rgb,
    pub lights: Vec<LightConfig>,
    pub entities: Vec<(u64, Transform)>,
}

/// The first row carrying a camera of the given kind, from `i` on.
pub open spec fn spec_first_camera_row(rows: Seq<EntityRecordV>, t: CameraType, i: int) -> Option<
    int,
>
    decreases rows.len() - i,
{
    if i < 0 || i >= rows.len() {
        None
    } else if rows[i].camera matches Some(c) && c.camera_type == t {
        Some(i)
    } else {
        spec_first_camera_row(rows, t, i + 1)
    }
}

impl RuntimeScene {
    /// The script bindings to tick this frame: the frame loop hands each to
    /// the script engine and reports failures back. Only entities bound in
    /// the current world appear, each under its current handle.
    pub fn script_tick_list(&self) -> (r: Vec<(EntityHandle, String)>)
        ensures
            r.deep_view() == spec_tick_list(self@.world, 0),
    {
        let ghost w = self@.world;
        let gen_now: u64 = self.world.generation;
        let mut r: Vec<(EntityHandle, String)> = Vec::new();
        let ghost mut built = Seq::<(EntityHandle, Seq<char>)>::empty();
        let n = self.world.rows.len();
        let mut i: usize = 0;
        proof {
            assert(r.deep_view() =~= built);
        }
        while i < n
            invariant
                w == self@.world,
                n == w.rows.len(),
                gen_now == w.generation,
                i <= n,
                r.deep_view() == built,
                spec_tick_list(w, 0) == built + spec_tick_list(w, i as int),
            decreases n - i,
        {
            match &self.world.rows[i].script {
                Some(b) => {
                    let ghost e = (
                        EntityHandle { index: i, generation: w.generation },
                        b.name@,
                    );
                    let ghost prev = r.deep_view();
                    r.push((EntityHandle { index: i, generation: gen_now }, b.name.clone()));
                    proof {
                        assert(r.deep_view() =~= prev.push(e));
                        assert((built + (seq![e] + spec_tick_list(w, i + 1))) =~= (built.push(e)
                            + spec_tick_list(w, i + 1)));
                        built = built.push(e);
                    }
                },
                None => {},
            }
            i = i + 1;
        }
        proof {
            assert(built + spec_tick_list(w, n as int) =~= built);
        }
        r
    }

    /// Run one frame's update: land the script effects the engine produced
    /// for this frame's ticks, resolve camera following, let each camera
    /// consume its mouse-look input — returned for the active camera, for
    /// the external camera math — and clear the mouse delta so the next
    /// frame starts empty.
    pub fn update(&mut self, effects: &Vec<ScriptEffect>) -> (look: (i64, i64))
        requires
            old(self)@.wf(),
        ensures
            final(self)@.wf(),
            spec_update_outcome(old(self)@, final(self)@, effects.deep_view(), look),
    {
        let ghost edv = effects.deep_view();
        let n = effects.len();
        let mut i: usize = 0;
        proof {
            assert(edv.skip(0) =~= edv);
        }
        while i < n
            invariant
                edv == effects.deep_view(),
                n == edv.len(),
                i <= n,
                spec_apply_effects(old(self)@.world, old(self)@.scene_command, edv)
                    == spec_apply_effects(self@.world, self@.scene_command, edv.skip(i as int)),
                self@ == (RuntimeSceneV {
                    world: self@.world,
                    scene_command: self@.scene_command,
                    ..old(self)@
                }),
            decreases n - i,
        {
            proof {
                assert(edv.skip(i as int)[0] == edv[i as int]);
                assert(edv.skip(i as int).drop_first() =~= edv.skip(i + 1));
            }
            match &effects[i] {
                ScriptEffect::SetTransform(h, t) => {
                    let _ = self.world.set_transform(*h, *t);
                },
                ScriptEffect::RequestSwitch(name) => {
                    self.scene_command = SceneCommand::SwitchScene(name.clone());
                },
                ScriptEffect::RequestQuit => {
                    self.scene_command = SceneCommand::Quit;
                },
            }
            i = i + 1;
        }
        proof {
            assert(edv.skip(n as int) =~= Seq::<ScriptEffectV>::empty());
        }
        let look: (i64, i64) = match self.active_camera {
            Some(h) => match self.world.get(h) {
                Some(rec) => match &rec.camera {
                    Some(c) => (c.pending_look_x, c.pending_look_y),
                    None => (0, 0),
                },
                None => (0, 0),
            },
            None => (0, 0),
        };
        update_cameras(&mut self.world);
        self.input_state.mouse_delta = None;
        proof {
            lemma_apply_effects_preserves(
                old(self)@.world,
                old(self)@.scene_command,
                edv,
            );
        }
        look
    }

    /// What the renderer should draw: available once a scene is loaded and
    /// a pipeline is set, and holding the active camera, the fixed clear
    /// color, every enabled light, and every entity with a model and a
    /// transform. Before that, nothing is rendered.
    pub fn render(&self) -> (r: Option<RenderPlan>)
        requires
            self@.wf(),
        ensures
            (if self@.phase == Phase::Loaded && self@.pipeline is Some {
                &&& r matches Some(p)
                &&& r matches Some(p) ==> {
                    &&& p.pipeline == self@.pipeline->Some_0
                    &&& self@.active_camera matches Some(h) && p.camera@ == self@.world.rows[
                        h.index as int
                    ].camera->Some_0
                    &&& p.clear_color == (Rgb { red: 100, green: 149, blue: 237 })
                    &&& p.lights.deep_view() == spec_enabled_lights(self@.world.rows, 0)
                    &&& p.entities.deep_view() == spec_draw_list(self@.world.rows, 0)
                }
            } else {
                r is None
            }),
    {
        if !(matches!(self.phase, Phase::Loaded)) {
            return None;
        }
        let pipeline: u64 = match self.pipeline {
            Some(p) => p,
            None => {
                return None;
            },
        };
        let camera: CameraRecord = match self.active_camera {
            Some(h) => match self.world.get(h) {
                Some(rec) => match &rec.camera {
                    Some(c) => clone_camera(c),
                    None => {
                        proof {
                            assert(false);
                        }
                        return None;
                    },
                },
                None => {
                    proof {
                        assert(false);
                    }
                    return None;
                },
            },
            None => {
                proof {
                    assert(false);
                }
                return None;
            },
        };
        let ghost rows = self@.world.rows;
        let n = self.world.rows.len();
        let mut lights: Vec<LightConfig> = Vec::new();
        let ghost mut built_l = Seq::<LightConfig>::empty();
        let mut i: usize = 0;
        proof {
            assert(lights.deep_view() =~= built_l);
        }
        while i < n
            invariant
                rows == self@.world.rows,
                n == rows.len(),
                i <= n,
                lights.deep_view() == built_l,
                spec_enabled_lights(rows, 0) == built_l + spec_enabled_lights(rows, i as int),
            decreases n - i,
        {
            match &self.world.rows[i].light {
                Some(l) => {
                    if l.enabled {
                        let ghost prev = lights.deep_view();
                        lights.push(*l);
                        proof {
                            assert(lights.deep_view() =~= prev.push(rows[i as int].light->Some_0));
                            assert((built_l + (seq![rows[i as int].light->Some_0]
                                + spec_enabled_lights(rows, i + 1))) =~= (built_l.push(
                                rows[i as int].light->Some_0,
                            ) + spec_enabled_lights(rows, i + 1)));
                            built_l = built_l.push(rows[i as int].light->Some_0);
                        }
                    }
                },
                None => {},
            }
            i = i + 1;
        }
        proof {
            assert(built_l + spec_enabled_lights(rows, n as int) =~= built_l);
        }
        let mut entities: Vec<(u64, Transform)> = Vec::new();
        let ghost mut built_e = Seq::<(u64, Transform)>::empty();
        let mut j: usize = 0;
        proof {
            assert(entities.deep_view() =~= built_e);
        }
        while j < n
            invariant
                rows == self@.world.rows,
                n == rows.len(),
                j <= n,
                entities.deep_view() == built_e,
                spec_draw_list(rows, 0) == built_e + spec_draw_list(rows, j as int),
            decreases n - j,
        {
            let model: Option<u64> = self.world.rows[j].model;
            let transform: Option<Transform> = self.world.rows[j].transform;
            match (model, transform) {
                (Some(m), Some(t)) => {
                    let ghost e = (rows[j as int].model->Some_0, rows[j as int].transform->Some_0);
                    let ghost prev = entities.deep_view();
                    entities.push((m, t));
                    proof {
                        assert(entities.deep_view() =~= prev.push(e));
                        assert((built_e + (seq![e] + spec_draw_list(rows, j + 1))) =~= (
                        built_e.push(e) + spec_draw_list(rows, j + 1)));
                        built_e = built_e.push(e);
                    }
                },
                _ => {},
            }
            j = j + 1;
        }
        proof {
            assert(built_e + spec_draw_list(rows, n as int) =~= built_e);
        }
        Some(
            RenderPlan {
                pipeline,
                camera,
                clear_color: Rgb { red: 100, green: 149, blue: 237 },
                lights,
                entities,
            },
        )
    }

    /// Switch the active camera to the first one of the given kind; a kind
    /// with no registered camera leaves the active camera unchanged and
    /// reports a recoverable warning.
    pub fn set_active(&mut self, camera_type: CameraType) -> (r: Result<(), CameraError>)
        requires
            old(self)@.wf(),
        ensures
            final(self)@.wf(),
            (match spec_first_camera_row(old(self)@.world.rows, camera_type, 0) {
                Some(i) => r == Ok::<(), CameraError>(()) && final(self)@ == (RuntimeSceneV {
                    active_camera: Some(
                        (EntityHandle {
                            index: i as usize,
                            generation: old(self)@.world.generation,
                        }),
                    ),
                    ..old(self)@
                }),
                None => r == Err::<(), CameraError>(CameraError::NoActiveCamera) && final(self)@
                    == (RuntimeSceneV {
                    warnings: old(self)@.warnings.push(
                        (WarningV::CameraUnavailable { requested: camera_type }),
                    ),
                    ..old(self)@
                }),
            }),
    {
        let ghost rows = self@.world.rows;
        let n = self.world.rows.len();
        let mut i: usize = 0;
        proof {
            assert(spec_first_camera_row(rows, camera_type, 0) == spec_first_camera_row(
                rows,
                camera_type,
                0,
            ));
        }
        while i < n
            invariant
                rows == self@.world.rows,
                self@ == old(self)@,
                old(self)@.wf(),
                n == rows.len(),
                i <= n,
                spec_first_camera_row(rows, camera_type, 0) == spec_first_camera_row(
                    rows,
                    camera_type,
                    i as int,
                ),
            decreases n - i,
        {
            let found: bool = match &self.world.rows[i].camera {
                Some(c) => c.camera_type == camera_type,
                None => false,
            };
            if found {
                self.active_camera = Some(
                    EntityHandle { index: i, generation: self.world.generation },
                );
                return Ok(());
            }
            i = i + 1;
        }
        let ghost prev_w = self.warnings.deep_view();
        self.warnings.push(Warning::CameraUnavailable { requested: camera_type });
        proof {
            assert(self@.warnings =~= prev_w.push(
                (WarningV::CameraUnavailable { requested: camera_type }),
            ));
        }
        Err(CameraError::NoActiveCamera)
    }

    /// Bind a script to a live entity on demand: the named source must be
    /// in the package — a missing source is the recoverable source-missing
    /// failure, leaving the entity unscripted — and the entity must be
    /// unbound, since rebinding requires explicit removal first. The engine
    /// loads and initializes the instance outside; its failures come back
    /// through `report_script_failure`.
    pub fn bind(&mut self, entity: EntityHandle, script_ref: &ScriptRef) -> (r: Result<
        (),
        ScriptError,
    >)
        requires
            old(self)@.wf(),
            old(self)@.world.valid(entity),
            old(self)@.world.rows[entity.index as int].script is None,
        ensures
            final(self)@.wf(),
            (match find_source(old(self)@.catalogue.scripts, script_ref@.name) {
                Some(_) => r == Ok::<(), ScriptError>(()) && final(self)@ == (RuntimeSceneV {
                    world: spec_with_binding(old(self)@.world, entity, script_ref@.name),
                    ..old(self)@
                }),
                None => r == Err::<(), ScriptError>(ScriptError::SourceMissing) && final(self)@
                    == (RuntimeSceneV {
                    warnings: old(self)@.warnings.push(
                        (WarningV::ScriptFailure {
                            entity,
                            name: script_ref@.name,
                            error: ScriptError::SourceMissing,
                        }),
                    ),
                    ..old(self)@
                }),
            }),
    {
        match self.catalogue.lookup_script(&script_ref.name) {
            Some(_) => {
                let _ = self.world.set_binding(entity, script_ref.name.clone());
                proof {
                    match old(self)@.active_camera {
                        Some(h) => {
                            assert(self@.world.rows[h.index as int].camera == old(
                                self,
                            )@.world.rows[h.index as int].camera);
                        },
                        None => {},
                    }
                }
                Ok(())
            },
            None => {
                let ghost prev_w = self.warnings.deep_view();
                self.warnings.push(
                    Warning::ScriptFailure {
                        entity,
                        name: script_ref.name.clone(),
                        error: ScriptError::SourceMissing,
                    },
                );
                proof {
                    assert(self@.warnings =~= prev_w.push(
                        (WarningV::ScriptFailure {
                            entity,
                            name: script_ref@.name,
                            error: ScriptError::SourceMissing,
                        }),
                    ));
                }
                Err(ScriptError::SourceMissing)
            },
        }
    }

    /// The frame loop reports that the engine failed a script step for the
    /// entity a handle points at. A load or initialization failure leaves
    /// the entity unscripted for the rest of its lifecycle; a tick failure
    /// skips only that frame and keeps the binding. Every report lands in
    /// the warnings; a stale or unbound handle reports nothing.
    pub fn report_script_failure(&mut self, entity: EntityHandle, error: ScriptError) -> (reported:
        bool)
        requires
            old(self)@.wf(),
        ensures
            final(self)@.wf(),
            reported == (old(self)@.world.valid(entity) && old(self)@.world.rows[
                entity.index as int
            ].script is Some),
            !reported ==> *final(self) == *old(self),
            reported ==> final(self)@ == (RuntimeSceneV {
                world: (if error == ScriptError::TickFailure {
                    old(self)@.world
                } else {
                    spec_with_binding_cleared(old(self)@.world, entity)
                }),
                warnings: old(self)@.warnings.push(
                    (WarningV::ScriptFailure {
                        entity,
                        name: old(self)@.world.rows[entity.index as int].script->Some_0.name,
                        error,
                    }),
                ),
                ..old(self)@
            }),
    {
        let name: String = match self.world.get(entity) {
            Some(rec) => match &rec.script {
                Some(b) => b.name.clone(),
                None => {
                    return false;
                },
            },
            None => {
                return false;
            },
        };
        let ghost prev_w = self.warnings.deep_view();
        self.warnings.push(Warning::ScriptFailure { entity, name, error });
        proof {
            assert(self@.warnings =~= prev_w.push(
                (WarningV::ScriptFailure {
                    entity,
                    name: old(self)@.world.rows[entity.index as int].script->Some_0.name,
                    error,
                }),
            ));
        }
        if !(matches!(error, ScriptError::TickFailure)) {
            let _ = self.world.clear_binding(entity);
        }
        proof {
            match old(self)@.active_camera {
                Some(h) => {
                    assert(self@.world.rows[h.index as int].camera == old(self)@.world.rows[
                        h.index as int
                    ].camera);
                },
                None => {},
            }
        }
        true
    }

    /// Quit: unbind every script — before any handle is invalidated — then
    /// release the world, the cameras and the pipeline. The catalogue and
    /// the input state remain readable; nothing will be loaded again.
    pub fn exit(&mut self)
        requires
            old(self)@.wf(),
            old(self)@.world.generation < u64::MAX,
        ensures
            final(self)@.wf(),
            final(self)@ == (RuntimeSceneV {
                world: (WorldV {
                    generation: (old(self)@.world.generation + 1) as u64,
                    rows: Seq::<EntityRecordV>::empty(),
                }),
                active_camera: None,
                pipeline: None,
                phase: Phase::Terminated,
                ..old(self)@
            }),
    {
        self.world.unbind_all();
        self.world.clear();
        self.active_camera = None;
        self.pipeline = None;
        self.phase = Phase::Terminated;
    }
}

} // verus!
