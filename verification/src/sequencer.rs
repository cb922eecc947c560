//! Frame sequencer: the state machine driving the packaged application
//! through `load → {update, render}* → exit`, owning the scene catalogue,
//! the live world, the camera set, script bindings and aggregated input.
//!
//! The renderer, the script engine and the asset loader are outside
//! collaborators: the sequencer decides, and the surrounding process
//! performs their calls and hands the results back as plain values. A
//! transition through `Loading` happens inside one call, so no frame ever
//! observes a half-materialized world.

use vstd::prelude::*;

use crate::catalogue::SceneCatalogue;
use crate::data::{CameraType, RuntimeData, RuntimeDataV, Transform};
use crate::input::{spec_add_clamped, set_insert, set_remove, InputState, InputStateV, Key};
use crate::world::{spec_with_camera_look, EntityHandle, EntityRecordV, World, WorldV};

verus! {

/// Why a scene failed to load: the name is unknown, an entity's model could
/// not be constructed, the catalogue holds no playable content, or no camera
/// was active when rendering had to be set up. The last case is part of the
/// load-time taxonomy but cannot arise from this sequencer's own loads,
/// since materialization always synthesizes a fallback camera.
#[derive(Clone, Copy, Debug, PartialEq, Eq, Structural)]
pub enum LoadError {
    SceneNotFound,
    AssetFailure,
    NoScenesAvailable,
    NoActiveCamera,
}

/// Why a script step failed: its source is not in the package, the engine
/// could not load or initialize it, or one frame's tick failed.
#[derive(Clone, Copy, Debug, PartialEq, Eq, Structural)]
pub enum ScriptError {
    SourceMissing,
    LoadFailure,
    InitFailure,
    TickFailure,
}

/// Why a camera operation could not be carried out.
#[derive(Clone, Copy, Debug, PartialEq, Eq, Structural)]
pub enum CameraError {
    NoActiveCamera,
}

/// A command the frame loop collects after each frame: keep going, switch
/// to a named scene, or quit.
#[derive(Clone, Debug)]
pub enum SceneCommand {
    Idle,
    SwitchScene(String),
    Quit,
}

/// Mathematical view of a `SceneCommand`.
pub enum SceneCommandV {
    Idle,
    SwitchScene(Seq<char>),
    Quit,
}

impl View for SceneCommand {
    type V = SceneCommandV;

    open spec fn view(&self) -> SceneCommandV {
        match self {
            SceneCommand::Idle => SceneCommandV::Idle,
            SceneCommand::SwitchScene(name) => SceneCommandV::SwitchScene(name@),
            SceneCommand::Quit => SceneCommandV::Quit,
        }
    }
}

/// Where the sequencer stands in its lifecycle. `Loading`, `SwitchPending`
/// and `Exiting` are passed through inside a single call — materialization
/// and teardown are all-or-nothing — so between calls the phase is
/// `Unloaded`, `Loaded` or `Terminated`.
#[derive(Clone, Copy, Debug, PartialEq, Eq, Structural)]
pub enum Phase {
    Unloaded,
    Loading,
    Loaded,
    SwitchPending,
    Exiting,
    Terminated,
}

/// A recoverable condition, reported for the log and never fatal.
#[derive(Clone, Debug)]
pub enum Warning {
    ScriptFailure { entity: EntityHandle, name: String, error: ScriptError },
    CameraFallback,
    CameraUnavailable { requested: CameraType },
}

/// Mathematical view of a `Warning`.
pub enum WarningV {
    ScriptFailure { entity: EntityHandle, name: Seq<char>, error: ScriptError },
    CameraFallback,
    CameraUnavailable { requested: CameraType },
}

impl View for Warning {
    type V = WarningV;

    open spec fn view(&self) -> WarningV {
        match self {
            Warning::ScriptFailure { entity, name, error } => WarningV::ScriptFailure {
                entity: *entity,
                name: name@,
                error: *error,
            },
            Warning::CameraFallback => WarningV::CameraFallback,
            Warning::CameraUnavailable { requested } => WarningV::CameraUnavailable {
                requested: *requested,
            },
        }
    }
}

impl DeepView for Warning {
    type V = WarningV;

    open spec fn deep_view(&self) -> WarningV {
        self.view()
    }
}

/// What a frame's script ticks ask of the world, handed back as plain
/// values: move an entity, switch scene, or quit.
#[derive(Clone, Debug)]
pub enum ScriptEffect {
    SetTransform(EntityHandle, Transform),
    RequestSwitch(String),
    RequestQuit,
}

/// Mathematical view of a `ScriptEffect`.
pub enum ScriptEffectV {
    SetTransform(EntityHandle, Transform),
    RequestSwitch(Seq<char>),
    RequestQuit,
}

impl View for ScriptEffect {
    type V = ScriptEffectV;

    open spec fn view(&self) -> ScriptEffectV {
        match self {
            ScriptEffect::SetTransform(h, t) => ScriptEffectV::SetTransform(*h, *t),
            ScriptEffect::RequestSwitch(name) => ScriptEffectV::RequestSwitch(name@),
            ScriptEffect::RequestQuit => ScriptEffectV::RequestQuit,
        }
    }
}

impl DeepView for ScriptEffect {
    type V = ScriptEffectV;

    open spec fn deep_view(&self) -> ScriptEffectV {
        self.view()
    }
}

/// Mathematical view of the frame sequencer's whole state.
pub struct RuntimeSceneV {
    pub catalogue: RuntimeDataV,
    pub current_scene_name: Seq<char>,
    pub world: WorldV,
    pub active_camera: Option<EntityHandle>,
    pub scene_command: SceneCommandV,
    pub input: InputStateV,
    pub pipeline: Option<u64>,
    pub phase: Phase,
    pub warnings: Seq<WarningV>,
}

impl RuntimeSceneV {
    /// The sequencer's standing invariant: the catalogue keys are unique,
    /// an active camera handle always points at a live camera row, and a
    /// loaded sequencer always has an active camera.
    pub open spec fn wf(self) -> bool {
        &&& self.catalogue.wf()
        &&& (self.active_camera matches Some(h) ==> self.world.valid(h)
            && self.world.rows[h.index as int].camera is Some)
        &&& (self.phase == Phase::Loaded ==> self.active_camera is Some)
    }
}

/// The two states agree everywhere but in the scene command.
pub open spec fn eq_except_command(pre: RuntimeSceneV, post: RuntimeSceneV) -> bool {
    post == (RuntimeSceneV { scene_command: post.scene_command, ..pre })
}

/// The two states agree everywhere but in the input state.
pub open spec fn eq_except_input(pre: RuntimeSceneV, post: RuntimeSceneV) -> bool {
    post == (RuntimeSceneV { input: post.input, ..pre })
}

/// The two states agree everywhere but in the input state and the world.
pub open spec fn eq_except_input_world(pre: RuntimeSceneV, post: RuntimeSceneV) -> bool {
    post == (RuntimeSceneV { input: post.input, world: post.world, ..pre })
}

/// The frame sequencer: the runtime scene that owns the catalogue, the live
/// world, camera and script records, aggregated input, and the command the
/// frame loop reads after each frame.
pub struct RuntimeScene {
    pub catalogue: SceneCatalogue,
    pub current_scene_name: String,
    pub world: World,
    pub active_camera: Option<EntityHandle>,
    pub scene_command: SceneCommand,
    pub input_state: InputState,
    pub pipeline: Option<u64>,
    pub phase: Phase,
    pub warnings: Vec<Warning>,
}

impl View for RuntimeScene {
    type V = RuntimeSceneV;

    open spec fn view(&self) -> RuntimeSceneV {
        RuntimeSceneV {
            catalogue: self.catalogue@,
            current_scene_name: self.current_scene_name@,
            world: self.world@,
            active_camera: self.active_camera,
            scene_command: self.scene_command@,
            input: self.input_state@,
            pipeline: self.pipeline,
            phase: self.phase,
            warnings: self.warnings.deep_view(),
        }
    }
}

impl RuntimeScene {
    /// Take decoded package contents and stand ready to load: nothing is
    /// materialized yet, no command is pending, and no input has been seen.
    pub fn new(runtime_data: RuntimeData) -> (s: RuntimeScene)
        requires
            runtime_data@.wf(),
        ensures
            s@.wf(),
            s@.catalogue == runtime_data@,
            s@.current_scene_name == Seq::<char>::empty(),
            s@.world.generation == 0,
            s@.world.rows == Seq::<EntityRecordV>::empty(),
            s@.active_camera is None,
            s@.scene_command == SceneCommandV::Idle,
            s@.input == InputState::spec_initial(),
            s@.pipeline is None,
            s@.phase == Phase::Unloaded,
            s@.warnings == Seq::<WarningV>::empty(),
    {
        let s = RuntimeScene {
            catalogue: SceneCatalogue::from_data(runtime_data),
            current_scene_name: String::new(),
            world: World::new(),
            active_camera: None,
            scene_command: SceneCommand::Idle,
            input_state: InputState::new(),
            pipeline: None,
            phase: Phase::Unloaded,
            warnings: Vec::new(),
        };
        proof {
            assert(s@.warnings =~= Seq::<WarningV>::empty());
        }
        s
    }

    /// Hand the pending command to the frame loop and stand idle again.
    pub fn run_command(&mut self) -> (cmd: SceneCommand)
        ensures
            cmd@ == old(self)@.scene_command,
            final(self)@.scene_command == SceneCommandV::Idle,
            eq_except_command(old(self)@, final(self)@),
    {
        let mut cmd = SceneCommand::Idle;
        core::mem::swap(&mut self.scene_command, &mut cmd);
        cmd
    }

    /// A key went down. The quit key posts the quit command, the
    /// cursor-lock key toggles the lock, and any other key joins the
    /// pressed set; the toggle and quit keys never join it.
    pub fn key_down(&mut self, key: Key)
        ensures
            key == Key::Escape ==> eq_except_command(old(self)@, final(self)@)
                && final(self)@.scene_command == SceneCommandV::Quit,
            key == Key::F1 ==> eq_except_input(old(self)@, final(self)@) && final(self)@.input
                == (InputStateV {
                is_cursor_locked: !old(self)@.input.is_cursor_locked,
                ..old(self)@.input
            }),
            (forall|c: u32|
                key == Key::Code(c) ==> eq_except_input(old(self)@, final(self)@)
                    && final(self)@.input == (InputStateV {
                    pressed_keys: final(self)@.input.pressed_keys,
                    ..old(self)@.input
                }) && (if old(self)@.input.pressed_keys.contains(c) {
                    final(self)@.input.pressed_keys == old(self)@.input.pressed_keys
                } else {
                    final(self)@.input.pressed_keys == old(self)@.input.pressed_keys.push(c)
                })),
    {
        match key {
            Key::Escape => {
                self.scene_command = SceneCommand::Quit;
            },
            Key::F1 => {
                self.input_state.is_cursor_locked = !self.input_state.is_cursor_locked;
            },
            Key::Code(c) => {
                set_insert(&mut self.input_state.pressed_keys, c);
            },
        }
    }

    /// A key came up: its code leaves the pressed set; the quit and
    /// cursor-lock keys were never in it.
    pub fn key_up(&mut self, key: Key)
        ensures
            eq_except_input(old(self)@, final(self)@),
            (forall|c: u32|
                key == Key::Code(c) ==> final(self)@.input == (InputStateV {
                    pressed_keys: old(self)@.input.pressed_keys.remove_value(c),
                    ..old(self)@.input
                })),
            (key == Key::Escape || key == Key::F1) ==> final(self)@.input == old(self)@.input,
    {
        match key {
            Key::Escape => {},
            Key::F1 => {},
            Key::Code(c) => {
                set_remove(&mut self.input_state.pressed_keys, c);
            },
        }
    }

    /// A mouse button went down: its code joins the pressed set.
    pub fn mouse_down(&mut self, button: u32)
        ensures
            eq_except_input(old(self)@, final(self)@),
            final(self)@.input == (InputStateV {
                mouse_buttons: final(self)@.input.mouse_buttons,
                ..old(self)@.input
            }),
            old(self)@.input.mouse_buttons.contains(button) ==> final(self)@.input.mouse_buttons
                == old(self)@.input.mouse_buttons,
            !old(self)@.input.mouse_buttons.contains(button) ==> final(self)@.input.mouse_buttons
                == old(self)@.input.mouse_buttons.push(button),
    {
        set_insert(&mut self.input_state.mouse_buttons, button);
    }

    /// A mouse button came up: its code leaves the pressed set.
    pub fn mouse_up(&mut self, button: u32)
        ensures
            eq_except_input(old(self)@, final(self)@),
            final(self)@.input == (InputStateV {
                mouse_buttons: old(self)@.input.mouse_buttons.remove_value(button),
                ..old(self)@.input
            }),
    {
        set_remove(&mut self.input_state.mouse_buttons, button);
    }
}

/// The mouse delta after one mouse movement: while the cursor is locked the
/// movement joins the delta accumulated since the last frame, clamped at
/// the representable range; while it is free, deltas are not tracked.
pub open spec fn spec_mouse_delta_after(
    d: Option<(i64, i64)>,
    locked: bool,
    dx: int,
    dy: int,
) -> Option<(i64, i64)> {
    if locked {
        let ox: int = match d {
            Some(p) => p.0 as int,
            None => 0,
        };
        let oy: int = match d {
            Some(p) => p.1 as int,
            None => 0,
        };
        Some((spec_add_clamped(ox, dx) as i64, spec_add_clamped(oy, dy) as i64))
    } else {
        d
    }
}

impl RuntimeScene {
    /// The cursor moved. While locked, the movement relative to the window
    /// center — where the cursor is re-centered after every event — joins
    /// both the frame's mouse delta and the active camera's mouse-look
    /// input; while free, only the cursor position is remembered.
    pub fn mouse_move(&mut self, x: i32, y: i32, center_x: i32, center_y: i32)
        ensures
            old(self)@.wf() ==> final(self)@.wf(),
            eq_except_input_world(old(self)@, final(self)@),
            final(self)@.input == (InputStateV {
                mouse_pos_x: x,
                mouse_pos_y: y,
                mouse_delta: spec_mouse_delta_after(
                    old(self)@.input.mouse_delta,
                    old(self)@.input.is_cursor_locked,
                    x - center_x,
                    y - center_y,
                ),
                ..old(self)@.input
            }),
            (if old(self)@.input.is_cursor_locked && old(self)@.active_camera is Some {
                final(self)@.world == spec_with_camera_look(
                    old(self)@.world,
                    old(self)@.active_camera->Some_0,
                    x - center_x,
                    y - center_y,
                )
            } else {
                final(self)@.world == old(self)@.world
            }),
    {
        if self.input_state.is_cursor_locked {
            let dx: i64 = (x as i64) - (center_x as i64);
            let dy: i64 = (y as i64) - (center_y as i64);
            let (ox, oy): (i64, i64) = match self.input_state.mouse_delta {
                Some(p) => p,
                None => (0, 0),
            };
            self.input_state.mouse_delta = Some(
                (crate::input::add_clamped(ox, dx), crate::input::add_clamped(oy, dy)),
            );
            match self.active_camera {
                Some(h) => {
                    let _ = self.world.add_camera_look(h, dx, dy);
                },
                None => {},
            }
        }
        self.input_state.mouse_pos_x = x;
        self.input_state.mouse_pos_y = y;
    }
}

} // verus!
