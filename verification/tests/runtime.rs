//! Frame sequencer tests: loading, switching, the camera pass, script
//! bindings across world generations, input aggregation, and the render
//! plan.

use redback_runtime::camera::Vec3L;
use redback_runtime::data::{
    CameraConfig, CameraType, EntityConfig, FollowTarget, LightConfig, LightKind, Rgb,
    RuntimeData, SceneConfig, ScriptRef, Transform, Vec3,
};
use redback_runtime::input::Key;
use redback_runtime::sequencer::{
    LoadError, Phase, RuntimeScene, SceneCommand, ScriptEffect, ScriptError, Warning,
};

fn v3(x: i32, y: i32, z: i32) -> Vec3 {
    Vec3 { x, y, z }
}

fn transform_at(x: i32, y: i32, z: i32) -> Transform {
    Transform { position: v3(x, y, z), rotation: v3(0, 0, 0), scale: v3(1, 1, 1) }
}

fn entity(label: &str, script: Option<&str>) -> EntityConfig {
    EntityConfig {
        label: label.to_string(),
        model_path: format!("models/{}.obj", label),
        transform: transform_at(0, 0, 0),
        properties: vec![],
        script: script.map(|name| ScriptRef {
            name: name.to_string(),
            source_key: format!("scripts/{}", name),
        }),
    }
}

fn default_package() -> RuntimeData {
    RuntimeData {
        scenes: vec![
            SceneConfig {
                scene_name: "Default".to_string(),
                entities: vec![entity("Hero", Some("patrol.script"))],
                camera_specs: vec![],
                light_specs: vec![],
            },
            SceneConfig {
                scene_name: "Level2".to_string(),
                entities: vec![],
                camera_specs: vec![],
                light_specs: vec![],
            },
        ],
        scripts: vec![("patrol.script".to_string(), "<source>".to_string())],
    }
}

#[test]
fn loading_default_scene_binds_script_and_synthesizes_camera() {
    let mut rt = RuntimeScene::new(default_package());
    assert!(matches!(rt.phase, Phase::Unloaded));
    rt.load(&vec![Some(7)]).unwrap();
    assert!(matches!(rt.phase, Phase::Loaded));
    assert_eq!(rt.current_scene_name, "Default");
    // The entity was constructed with its model handle.
    assert_eq!(rt.world.rows.len(), 2);
    let hero = &rt.world.rows[0];
    assert_eq!(hero.label, "Hero");
    assert_eq!(hero.model, Some(7));
    // The script was bound to it.
    assert_eq!(hero.script.as_ref().unwrap().name, "patrol.script");
    let ticks = rt.script_tick_list();
    assert_eq!(ticks.len(), 1);
    assert_eq!(ticks[0].1, "patrol.script");
    assert_eq!(ticks[0].0.index, 0);
    // No camera specs were declared: the fallback debug camera stands and
    // is active.
    let cam_row = &rt.world.rows[1];
    let cam = cam_row.camera.as_ref().unwrap();
    assert!(matches!(cam.camera_type, CameraType::Debug));
    assert_eq!(rt.active_camera.unwrap().index, 1);
    assert!(rt.warnings.iter().any(|w| matches!(w, Warning::CameraFallback)));
}

#[test]
fn switching_to_unknown_scene_changes_nothing() {
    let mut rt = RuntimeScene::new(default_package());
    rt.load(&vec![Some(7)]).unwrap();
    let labels_before: Vec<String> =
        rt.world.rows.iter().map(|r| r.label.clone()).collect();
    let generation_before = rt.world.generation;
    let r = rt.load_scene(&"X".to_string(), &vec![]);
    assert_eq!(r, Err(LoadError::SceneNotFound));
    assert_eq!(rt.current_scene_name, "Default");
    assert_eq!(rt.world.generation, generation_before);
    let labels_after: Vec<String> =
        rt.world.rows.iter().map(|r| r.label.clone()).collect();
    assert_eq!(labels_before, labels_after);
    assert!(matches!(rt.phase, Phase::Loaded));
}

#[test]
fn asset_failure_aborts_switch_and_keeps_previous_scene() {
    let mut rt = RuntimeScene::new(default_package());
    rt.load(&vec![Some(7)]).unwrap();
    // Level2 declares no entities, so one model handle is one too many.
    let r = rt.load_scene(&"Level2".to_string(), &vec![Some(1)]);
    assert_eq!(r, Err(LoadError::AssetFailure));
    assert_eq!(rt.current_scene_name, "Default");
    assert_eq!(rt.world.rows.len(), 2);
    // A missing model handle fails the same way.
    let r = rt.load_scene(&"Default".to_string(), &vec![None]);
    assert_eq!(r, Err(LoadError::AssetFailure));
    assert_eq!(rt.world.rows[0].label, "Hero");
}

#[test]
fn empty_catalogue_is_fatal_at_startup() {
    let mut rt = RuntimeScene::new(RuntimeData { scenes: vec![], scripts: vec![] });
    assert_eq!(rt.load(&vec![]), Err(LoadError::NoScenesAvailable));
    assert!(matches!(rt.phase, Phase::Unloaded));
}

#[test]
fn materializing_twice_yields_same_composition() {
    let mut rt = RuntimeScene::new(default_package());
    rt.load(&vec![Some(7)]).unwrap();
    let snapshot: Vec<(String, Option<u64>, bool, bool)> = rt
        .world
        .rows
        .iter()
        .map(|r| (r.label.clone(), r.model, r.script.is_some(), r.camera.is_some()))
        .collect();
    let gen1 = rt.world.generation;
    rt.load_scene(&"Default".to_string(), &vec![Some(7)]).unwrap();
    let again: Vec<(String, Option<u64>, bool, bool)> = rt
        .world
        .rows
        .iter()
        .map(|r| (r.label.clone(), r.model, r.script.is_some(), r.camera.is_some()))
        .collect();
    assert_eq!(snapshot, again);
    assert_eq!(rt.world.rows.len(), 2);
    // Only the handles' generation differs.
    assert_ne!(rt.world.generation, gen1);
}

#[test]
fn stale_handle_is_never_ticked_after_rematerialization() {
    let mut rt = RuntimeScene::new(default_package());
    rt.load(&vec![Some(7)]).unwrap();
    let old_handle = rt.script_tick_list()[0].0;
    // Reload the same scene: the handle's row index is reused, but under a
    // new generation.
    rt.load_scene(&"Default".to_string(), &vec![Some(7)]).unwrap();
    let new_handle = rt.script_tick_list()[0].0;
    assert_eq!(old_handle.index, new_handle.index);
    assert_ne!(old_handle, new_handle);
    // The stale handle is rejected everywhere: effects fall to the floor
    // and failures cannot be filed under it.
    let before = rt.world.rows[0].transform;
    rt.update(&vec![ScriptEffect::SetTransform(old_handle, transform_at(9, 9, 9))]);
    assert_eq!(rt.world.rows[0].transform, before);
    assert!(!rt.report_script_failure(old_handle, ScriptError::TickFailure));
}

#[test]
fn unbind_all_on_exit_releases_bindings_and_world() {
    let mut rt = RuntimeScene::new(default_package());
    rt.load(&vec![Some(7)]).unwrap();
    assert_eq!(rt.script_tick_list().len(), 1);
    rt.exit();
    assert!(matches!(rt.phase, Phase::Terminated));
    assert_eq!(rt.world.rows.len(), 0);
    assert_eq!(rt.script_tick_list().len(), 0);
    assert!(rt.active_camera.is_none());
}

#[test]
fn follow_camera_trails_hero_at_fixed_offset() {
    let mut hero = entity("Hero", None);
    hero.transform = transform_at(0, 0, 0);
    let data = RuntimeData {
        scenes: vec![SceneConfig {
            scene_name: "Default".to_string(),
            entities: vec![hero],
            camera_specs: vec![CameraConfig {
                camera_type: CameraType::Player,
                position: v3(20, 20, 20),
                look_at: v3(0, 0, 0),
                follow_target: Some(FollowTarget {
                    target_label: "Hero".to_string(),
                    offset: v3(0, 5, -10),
                }),
            }],
            light_specs: vec![],
        }],
        scripts: vec![],
    };
    let mut rt = RuntimeScene::new(data);
    rt.load(&vec![Some(1)]).unwrap();
    rt.update(&vec![]);
    let cam = rt.world.rows[1].camera.as_ref().unwrap();
    assert_eq!(cam.target, Vec3L { x: 0, y: 0, z: 0 });
    assert_eq!(cam.eye, Vec3L { x: 0, y: 5, z: -10 });
    // The camera follows the entity as it moves.
    let hero_handle = redback_runtime::world::EntityHandle {
        index: 0,
        generation: rt.world.generation,
    };
    rt.update(&vec![ScriptEffect::SetTransform(hero_handle, transform_at(100, 0, 7))]);
    let cam = rt.world.rows[1].camera.as_ref().unwrap();
    assert_eq!(cam.target, Vec3L { x: 100, y: 0, z: 7 });
    assert_eq!(cam.eye, Vec3L { x: 100, y: 5, z: -3 });
}

#[test]
fn follow_camera_without_match_keeps_last_position() {
    let data = RuntimeData {
        scenes: vec![SceneConfig {
            scene_name: "Default".to_string(),
            entities: vec![],
            camera_specs: vec![CameraConfig {
                camera_type: CameraType::Debug,
                position: v3(4, 4, 4),
                look_at: v3(1, 1, 1),
                follow_target: Some(FollowTarget {
                    target_label: "Nobody".to_string(),
                    offset: v3(0, 5, -10),
                }),
            }],
            light_specs: vec![],
        }],
        scripts: vec![],
    };
    let mut rt = RuntimeScene::new(data);
    rt.load(&vec![]).unwrap();
    rt.update(&vec![]);
    let cam = rt.world.rows[0].camera.as_ref().unwrap();
    assert_eq!(cam.eye, Vec3L { x: 4, y: 4, z: 4 });
    assert_eq!(cam.target, Vec3L { x: 1, y: 1, z: 1 });
}

#[test]
fn mouse_delta_is_net_movement_since_last_frame() {
    let mut rt = RuntimeScene::new(default_package());
    rt.load(&vec![Some(7)]).unwrap();
    // Unlocked: deltas are not tracked.
    rt.mouse_move(110, 105, 100, 100);
    assert_eq!(rt.input_state.mouse_delta, None);
    assert_eq!(rt.input_state.mouse_pos_x, 110);
    assert_eq!(rt.input_state.mouse_pos_y, 105);
    // Locked: movements relative to the window center accumulate.
    rt.key_down(Key::F1);
    assert!(rt.input_state.is_cursor_locked);
    rt.mouse_move(110, 105, 100, 100);
    assert_eq!(rt.input_state.mouse_delta, Some((10, 5)));
    rt.mouse_move(95, 100, 100, 100);
    assert_eq!(rt.input_state.mouse_delta, Some((5, 5)));
    // The update consumes it: the next frame starts empty.
    let look = rt.update(&vec![]);
    assert_eq!(rt.input_state.mouse_delta, None);
    // The same movement reached the active camera and was consumed by the
    // camera update.
    assert_eq!(look, (5, 5));
    let cam = rt.world.rows[1].camera.as_ref().unwrap();
    assert_eq!(cam.pending_look_x, 0);
    assert_eq!(cam.pending_look_y, 0);
}

#[test]
fn mouse_look_is_dropped_while_unlocked() {
    let mut rt = RuntimeScene::new(default_package());
    rt.load(&vec![Some(7)]).unwrap();
    rt.mouse_move(150, 150, 100, 100);
    let look = rt.update(&vec![]);
    assert_eq!(look, (0, 0));
}

#[test]
fn escape_posts_quit_and_run_command_drains_it() {
    let mut rt = RuntimeScene::new(default_package());
    rt.key_down(Key::Escape);
    assert!(matches!(rt.run_command(), SceneCommand::Quit));
    assert!(matches!(rt.run_command(), SceneCommand::Idle));
}

#[test]
fn scripts_can_request_a_scene_switch() {
    let mut rt = RuntimeScene::new(default_package());
    rt.load(&vec![Some(7)]).unwrap();
    rt.update(&vec![ScriptEffect::RequestSwitch("Level2".to_string())]);
    match rt.run_command() {
        SceneCommand::SwitchScene(name) => assert_eq!(name, "Level2"),
        other => panic!("expected a switch command, got {:?}", other),
    }
    rt.load_scene(&"Level2".to_string(), &vec![]).unwrap();
    assert_eq!(rt.current_scene_name, "Level2");
}

#[test]
fn pressed_key_set_tracks_down_and_up() {
    let mut rt = RuntimeScene::new(default_package());
    rt.key_down(Key::Code(65));
    rt.key_down(Key::Code(65));
    rt.key_down(Key::Code(66));
    assert!(rt.input_state.is_key_down(65));
    assert!(rt.input_state.is_key_down(66));
    rt.key_up(Key::Code(65));
    assert!(!rt.input_state.is_key_down(65));
    assert!(rt.input_state.is_key_down(66));
    rt.mouse_down(1);
    assert!(rt.input_state.is_button_down(1));
    rt.mouse_up(1);
    assert!(!rt.input_state.is_button_down(1));
}

#[test]
fn render_plan_lists_visible_entities_and_enabled_lights() {
    let mut data = default_package();
    data.scenes[0].light_specs = vec![
        LightConfig {
            kind: LightKind::Point,
            transform: transform_at(0, 9, 0),
            color: Rgb { red: 1, green: 2, blue: 3 },
            intensity: 10,
            enabled: true,
        },
        LightConfig {
            kind: LightKind::Spot,
            transform: transform_at(5, 5, 5),
            color: Rgb { red: 9, green: 9, blue: 9 },
            intensity: 99,
            enabled: false,
        },
    ];
    let mut rt = RuntimeScene::new(data);
    rt.load(&vec![Some(7)]).unwrap();
    // No pipeline yet: nothing is rendered.
    assert!(rt.render().is_none());
    rt.set_pipeline(3);
    let plan = rt.render().unwrap();
    assert_eq!(plan.pipeline, 3);
    assert_eq!(plan.clear_color, Rgb { red: 100, green: 149, blue: 237 });
    assert_eq!(plan.entities.len(), 1);
    assert_eq!(plan.entities[0].0, 7);
    assert_eq!(plan.lights.len(), 1);
    assert!(matches!(plan.lights[0].kind, LightKind::Point));
    assert!(matches!(plan.camera.camera_type, CameraType::Debug));
}

#[test]
fn player_camera_wins_activation_and_can_be_switched() {
    let mut data = default_package();
    data.scenes[0].camera_specs = vec![
        CameraConfig {
            camera_type: CameraType::Debug,
            position: v3(0, 0, 0),
            look_at: v3(0, 0, 0),
            follow_target: None,
        },
        CameraConfig {
            camera_type: CameraType::Player,
            position: v3(1, 1, 1),
            look_at: v3(0, 0, 0),
            follow_target: None,
        },
    ];
    let mut rt = RuntimeScene::new(data);
    rt.load(&vec![Some(7)]).unwrap();
    rt.set_pipeline(1);
    // The Player camera is preferred even though Debug is declared first.
    let plan = rt.render().unwrap();
    assert!(matches!(plan.camera.camera_type, CameraType::Player));
    rt.set_active(CameraType::Debug).unwrap();
    let plan = rt.render().unwrap();
    assert!(matches!(plan.camera.camera_type, CameraType::Debug));
}

#[test]
fn switching_to_absent_camera_kind_keeps_active_camera() {
    let mut rt = RuntimeScene::new(default_package());
    rt.load(&vec![Some(7)]).unwrap();
    let active_before = rt.active_camera;
    let r = rt.set_active(CameraType::Player);
    assert!(r.is_err());
    assert_eq!(rt.active_camera, active_before);
    assert!(rt
        .warnings
        .iter()
        .any(|w| matches!(w, Warning::CameraUnavailable { requested: CameraType::Player })));
}

#[test]
fn duplicate_camera_kinds_fall_back_to_debug_camera() {
    let mut data = default_package();
    let player = CameraConfig {
        camera_type: CameraType::Player,
        position: v3(1, 1, 1),
        look_at: v3(0, 0, 0),
        follow_target: None,
    };
    data.scenes[0].camera_specs = vec![player.clone(), player];
    let mut rt = RuntimeScene::new(data);
    rt.load(&vec![Some(7)]).unwrap();
    // The malformed camera specs did not abort the load.
    assert!(matches!(rt.phase, Phase::Loaded));
    let cam_rows: Vec<&redback_runtime::camera::CameraRecord> =
        rt.world.rows.iter().filter_map(|r| r.camera.as_ref()).collect();
    assert_eq!(cam_rows.len(), 1);
    assert!(matches!(cam_rows[0].camera_type, CameraType::Debug));
    assert!(rt.warnings.iter().any(|w| matches!(w, Warning::CameraFallback)));
}

#[test]
fn missing_script_source_leaves_entity_unscripted() {
    let mut data = default_package();
    data.scripts.clear();
    let mut rt = RuntimeScene::new(data);
    rt.load(&vec![Some(7)]).unwrap();
    assert!(matches!(rt.phase, Phase::Loaded));
    assert!(rt.world.rows[0].script.is_none());
    assert_eq!(rt.script_tick_list().len(), 0);
    assert!(rt.warnings.iter().any(|w| matches!(
        w,
        Warning::ScriptFailure { error: ScriptError::SourceMissing, .. }
    )));
}

#[test]
fn load_failure_unbinds_but_tick_failure_does_not() {
    let mut rt = RuntimeScene::new(default_package());
    rt.load(&vec![Some(7)]).unwrap();
    let handle = rt.script_tick_list()[0].0;
    // A tick failure skips the frame and keeps the binding.
    assert!(rt.report_script_failure(handle, ScriptError::TickFailure));
    assert_eq!(rt.script_tick_list().len(), 1);
    // A load failure removes the binding for good.
    assert!(rt.report_script_failure(handle, ScriptError::LoadFailure));
    assert_eq!(rt.script_tick_list().len(), 0);
    assert!(rt.warnings.iter().any(|w| matches!(
        w,
        Warning::ScriptFailure { error: ScriptError::LoadFailure, .. }
    )));
    // Nothing is bound: reporting again has nothing to report.
    assert!(!rt.report_script_failure(handle, ScriptError::InitFailure));
}

#[test]
fn bind_on_demand_attaches_a_packaged_script() {
    let mut data = default_package();
    data.scenes[0].entities.push(entity("Rock", None));
    let mut rt = RuntimeScene::new(data);
    rt.load(&vec![Some(7), Some(8)]).unwrap();
    assert!(rt.world.rows[1].script.is_none());
    let rock = redback_runtime::world::EntityHandle {
        index: 1,
        generation: rt.world.generation,
    };
    rt.bind(
        rock,
        &ScriptRef {
            name: "patrol.script".to_string(),
            source_key: "scripts/patrol.script".to_string(),
        },
    )
    .unwrap();
    assert_eq!(rt.world.rows[1].script.as_ref().unwrap().name, "patrol.script");
    assert_eq!(rt.script_tick_list().len(), 2);
}

#[test]
fn bind_with_missing_source_reports_and_leaves_unscripted() {
    let mut data = default_package();
    data.scenes[0].entities.push(entity("Rock", None));
    let mut rt = RuntimeScene::new(data);
    rt.load(&vec![Some(7), Some(8)]).unwrap();
    let rock = redback_runtime::world::EntityHandle {
        index: 1,
        generation: rt.world.generation,
    };
    let r = rt.bind(
        rock,
        &ScriptRef { name: "gone.script".to_string(), source_key: "k".to_string() },
    );
    assert_eq!(r, Err(ScriptError::SourceMissing));
    assert!(rt.world.rows[1].script.is_none());
    assert!(rt.warnings.iter().any(|w| matches!(
        w,
        Warning::ScriptFailure { error: ScriptError::SourceMissing, .. }
    )));
}

#[test]
fn accumulated_deltas_clamp_at_the_representable_range() {
    assert_eq!(redback_runtime::input::add_clamped(i64::MAX, 1), i64::MAX);
    assert_eq!(redback_runtime::input::add_clamped(i64::MIN, -1), i64::MIN);
    assert_eq!(redback_runtime::input::add_clamped(i64::MAX, i64::MIN), -1);
    assert_eq!(redback_runtime::input::add_clamped(40, 2), 42);
}
