//! Scene catalogue tests: lookup and the default-scene policy.

use redback_runtime::catalogue::SceneCatalogue;
use redback_runtime::data::{RuntimeData, SceneConfig};

fn scene(name: &str) -> SceneConfig {
    SceneConfig {
        scene_name: name.to_string(),
        entities: vec![],
        camera_specs: vec![],
        light_specs: vec![],
    }
}

#[test]
fn default_scene_name_prefers_literal_default() {
    let cat = SceneCatalogue::from_data(RuntimeData {
        scenes: vec![scene("Intro"), scene("Default"), scene("Level2")],
        scripts: vec![],
    });
    assert_eq!(cat.default_scene_name(), Some("Default".to_string()));
}

#[test]
fn default_scene_name_falls_back_to_first_declared() {
    let cat = SceneCatalogue::from_data(RuntimeData {
        scenes: vec![scene("Intro"), scene("Level2")],
        scripts: vec![],
    });
    assert_eq!(cat.default_scene_name(), Some("Intro".to_string()));
}

#[test]
fn default_scene_name_empty_catalogue_has_none() {
    let cat = SceneCatalogue::from_data(RuntimeData { scenes: vec![], scripts: vec![] });
    assert_eq!(cat.default_scene_name(), None);
}

#[test]
fn lookup_finds_scene_by_name() {
    let cat = SceneCatalogue::from_data(RuntimeData {
        scenes: vec![scene("Intro"), scene("Level2")],
        scripts: vec![],
    });
    let found = cat.lookup(&"Level2".to_string()).unwrap();
    assert_eq!(found.scene_name, "Level2");
}

#[test]
fn lookup_unknown_scene_is_none() {
    let cat = SceneCatalogue::from_data(RuntimeData {
        scenes: vec![scene("Intro")],
        scripts: vec![],
    });
    assert!(cat.lookup(&"Nowhere".to_string()).is_none());
}

#[test]
fn lookup_script_finds_source_by_key() {
    let cat = SceneCatalogue::from_data(RuntimeData {
        scenes: vec![],
        scripts: vec![
            ("patrol.script".to_string(), "walk()".to_string()),
            ("idle.script".to_string(), "wait()".to_string()),
        ],
    });
    assert_eq!(cat.lookup_script(&"idle.script".to_string()), Some(&"wait()".to_string()));
    assert!(cat.lookup_script(&"gone.script".to_string()).is_none());
}
