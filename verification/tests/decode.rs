//! Decoder tests against the reference encoder: packages are produced with
//! bincode's standard configuration and must decode to exactly the values
//! that were encoded.

use redback_runtime::codec::{decode, DecodeError};
use redback_runtime::data::{CameraType, LightKind};

type TransformT = ((i32, i32, i32), (i32, i32, i32), (i32, i32, i32));
type EntityT = (String, String, TransformT, Vec<(String, String)>, Option<(String, String)>);
type CameraT = (u32, (i32, i32, i32), (i32, i32, i32), Option<(String, (i32, i32, i32))>);
type LightT = (u32, TransformT, (u8, u8, u8), u32, bool);
type SceneT = (String, Vec<EntityT>, Vec<CameraT>, Vec<LightT>);
type PackageT = (Vec<SceneT>, Vec<(String, String)>);

fn enc<T: bincode::Encode>(value: T) -> Vec<u8> {
    bincode::encode_to_vec(value, bincode::config::standard()).unwrap()
}

fn ident_transform() -> TransformT {
    ((0, 0, 0), (0, 0, 0), (1, 1, 1))
}

fn simple_entity(label: &str, script: Option<(&str, &str)>) -> EntityT {
    (
        label.to_string(),
        format!("models/{}.obj", label),
        ident_transform(),
        vec![("speed".to_string(), "3".to_string())],
        script.map(|(n, k)| (n.to_string(), k.to_string())),
    )
}

#[test]
fn decode_empty_package() {
    let package: PackageT = (vec![], vec![]);
    let bytes = enc(package);
    let (data, consumed) = decode(&bytes).unwrap();
    assert_eq!(consumed, bytes.len());
    assert_eq!(data.scenes.len(), 0);
    assert_eq!(data.scripts.len(), 0);
}

#[test]
fn decode_full_package_round_trip() {
    let scene: SceneT = (
        "Default".to_string(),
        vec![
            simple_entity("Hero", Some(("patrol.script", "scripts/patrol.script"))),
            simple_entity("Rock", None),
        ],
        vec![(
            0,
            (1, 2, 3),
            (0, 0, 0),
            Some(("Hero".to_string(), (0, 5, -10))),
        )],
        vec![(1, ident_transform(), (255, 200, 100), 900, true)],
    );
    let package: PackageT = (
        vec![scene, ("Level2".to_string(), vec![], vec![], vec![])],
        vec![("patrol.script".to_string(), "say('hi')".to_string())],
    );
    let bytes = enc(package);
    let (data, consumed) = decode(&bytes).unwrap();
    assert_eq!(consumed, bytes.len());
    assert_eq!(data.scenes.len(), 2);
    let s = &data.scenes[0];
    assert_eq!(s.scene_name, "Default");
    assert_eq!(s.entities.len(), 2);
    let hero = &s.entities[0];
    assert_eq!(hero.label, "Hero");
    assert_eq!(hero.model_path, "models/Hero.obj");
    assert_eq!(hero.transform.scale.x, 1);
    assert_eq!(hero.properties.len(), 1);
    assert_eq!(hero.properties[0].0, "speed");
    assert_eq!(hero.properties[0].1, "3");
    let sr = hero.script.as_ref().unwrap();
    assert_eq!(sr.name, "patrol.script");
    assert_eq!(sr.source_key, "scripts/patrol.script");
    assert!(s.entities[1].script.is_none());
    assert_eq!(s.camera_specs.len(), 1);
    let cam = &s.camera_specs[0];
    assert!(matches!(cam.camera_type, CameraType::Player));
    assert_eq!(cam.position.x, 1);
    assert_eq!(cam.position.y, 2);
    assert_eq!(cam.position.z, 3);
    let ft = cam.follow_target.as_ref().unwrap();
    assert_eq!(ft.target_label, "Hero");
    assert_eq!(ft.offset.y, 5);
    assert_eq!(ft.offset.z, -10);
    assert_eq!(s.light_specs.len(), 1);
    let light = &s.light_specs[0];
    assert!(matches!(light.kind, LightKind::Point));
    assert_eq!(light.color.red, 255);
    assert_eq!(light.color.green, 200);
    assert_eq!(light.color.blue, 100);
    assert_eq!(light.intensity, 900);
    assert!(light.enabled);
    assert_eq!(data.scenes[1].scene_name, "Level2");
    assert_eq!(data.scripts.len(), 1);
    assert_eq!(data.scripts[0].0, "patrol.script");
    assert_eq!(data.scripts[0].1, "say('hi')");
}

#[test]
fn decode_multibyte_text_round_trip() {
    let package: PackageT = (
        vec![("Début".to_string(), vec![], vec![], vec![])],
        vec![("greet".to_string(), "print('God dag — påskyndad λόγος')".to_string())],
    );
    let bytes = enc(package);
    let (data, _) = decode(&bytes).unwrap();
    assert_eq!(data.scenes[0].scene_name, "Début");
    assert_eq!(data.scripts[0].1, "print('God dag — påskyndad λόγος')");
}

#[test]
fn decode_wide_varints_and_negative_coordinates() {
    let long_name = "n".repeat(300);
    let entity: EntityT = (
        "far".to_string(),
        "m".to_string(),
        ((-70000, 252, -251), (2147483647, -2147483648, 0), (1, 1, 1)),
        vec![],
        None,
    );
    let package: PackageT = (
        vec![(long_name.clone(), vec![entity], vec![], vec![])],
        vec![],
    );
    let bytes = enc(package);
    let (data, _) = decode(&bytes).unwrap();
    assert_eq!(data.scenes[0].scene_name, long_name);
    let t = &data.scenes[0].entities[0].transform;
    assert_eq!(t.position.x, -70000);
    assert_eq!(t.position.y, 252);
    assert_eq!(t.position.z, -251);
    assert_eq!(t.rotation.x, 2147483647);
    assert_eq!(t.rotation.y, -2147483648);
}

#[test]
fn decode_trailing_bytes_are_not_an_error() {
    let package: PackageT = (vec![("Default".to_string(), vec![], vec![], vec![])], vec![]);
    let mut bytes = enc(package);
    let package_len = bytes.len();
    bytes.extend_from_slice(&[9, 9, 9, 9]);
    let (data, consumed) = decode(&bytes).unwrap();
    assert_eq!(consumed, package_len);
    assert_eq!(data.scenes.len(), 1);
}

#[test]
fn decode_truncated_never_panics() {
    let scene: SceneT = (
        "Default".to_string(),
        vec![simple_entity("Hero", Some(("patrol.script", "k")))],
        vec![(1, (0, 0, 0), (0, 0, 0), None)],
        vec![(0, ident_transform(), (1, 2, 3), 7, false)],
    );
    let package: PackageT = (
        vec![scene],
        vec![("patrol.script".to_string(), "src".to_string())],
    );
    let bytes = enc(package);
    for cut in 0..bytes.len() {
        let truncated = bytes[..cut].to_vec();
        assert!(matches!(decode(&truncated), Err(DecodeError::Corrupt)), "cut at {}", cut);
    }
}

#[test]
fn decode_invalid_text_is_a_version_mismatch() {
    // One scene whose name claims two bytes that are not valid UTF-8.
    let bytes = vec![1u8, 2, 0xff, 0xfe];
    assert!(matches!(decode(&bytes), Err(DecodeError::VersionMismatch)));
}

#[test]
fn decode_invalid_text_deep_in_a_script_source() {
    let package: PackageT = (
        vec![("Default".to_string(), vec![], vec![], vec![])],
        vec![("a".to_string(), "bc".to_string())],
    );
    let mut bytes = enc(package);
    // The script source "bc" sits at the very end; corrupt its bytes.
    let n = bytes.len();
    bytes[n - 2] = 0xc0;
    bytes[n - 1] = 0x20;
    assert!(matches!(decode(&bytes), Err(DecodeError::VersionMismatch)));
}

#[test]
fn decode_duplicate_scene_names_rejected() {
    let package: PackageT = (
        vec![
            ("Default".to_string(), vec![], vec![], vec![]),
            ("Default".to_string(), vec![], vec![], vec![]),
        ],
        vec![],
    );
    let bytes = enc(package);
    assert!(matches!(decode(&bytes), Err(DecodeError::Corrupt)));
}

#[test]
fn decode_duplicate_script_keys_rejected() {
    let package: PackageT = (
        vec![("Default".to_string(), vec![], vec![], vec![])],
        vec![
            ("a".to_string(), "one".to_string()),
            ("a".to_string(), "two".to_string()),
        ],
    );
    let bytes = enc(package);
    assert!(matches!(decode(&bytes), Err(DecodeError::Corrupt)));
}

#[test]
fn decode_unknown_camera_kind_rejected() {
    let scene: SceneT = (
        "Default".to_string(),
        vec![],
        vec![(9, (0, 0, 0), (0, 0, 0), None)],
        vec![],
    );
    let package: PackageT = (vec![scene], vec![]);
    let bytes = enc(package);
    assert!(matches!(decode(&bytes), Err(DecodeError::Corrupt)));
}

#[test]
fn decode_bad_option_tag_rejected() {
    // Piece the package together by hand: one scene, one entity whose
    // optional script carries the impossible tag 7.
    let mut bytes = Vec::new();
    bytes.extend_from_slice(&enc(1u64)); // one scene
    bytes.extend_from_slice(&enc("Default".to_string()));
    bytes.extend_from_slice(&enc(1u64)); // one entity
    bytes.extend_from_slice(&enc("Hero".to_string()));
    bytes.extend_from_slice(&enc("m".to_string()));
    bytes.extend_from_slice(&enc(ident_transform()));
    bytes.extend_from_slice(&enc(0u64)); // no properties
    bytes.push(7); // option tag, must be 0 or 1
    assert!(matches!(decode(&bytes), Err(DecodeError::Corrupt)));
}

#[test]
fn decode_bad_bool_rejected() {
    let mut bytes = Vec::new();
    bytes.extend_from_slice(&enc(1u64)); // one scene
    bytes.extend_from_slice(&enc("Default".to_string()));
    bytes.extend_from_slice(&enc(0u64)); // no entities
    bytes.extend_from_slice(&enc(0u64)); // no cameras
    bytes.extend_from_slice(&enc(1u64)); // one light
    bytes.extend_from_slice(&enc(0u32)); // directional
    bytes.extend_from_slice(&enc(ident_transform()));
    bytes.extend_from_slice(&enc((10u8, 20u8, 30u8)));
    bytes.extend_from_slice(&enc(5u32));
    bytes.push(2); // enabled flag, must be 0 or 1
    bytes.extend_from_slice(&enc(0u64)); // no scripts
    assert!(matches!(decode(&bytes), Err(DecodeError::Corrupt)));
}

#[test]
fn decode_reserved_varint_marker_rejected() {
    // 255 is not a valid length marker.
    let bytes = vec![255u8, 1, 1];
    assert!(matches!(decode(&bytes), Err(DecodeError::Corrupt)));
}
