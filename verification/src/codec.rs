//! Package decoder: turns a byte buffer into a typed `RuntimeData` catalogue.
//!
//! The wire format is the package producer's standard binary encoding:
//! integers are variable-length (values up to 250 stand in one byte; the
//! marker bytes 251, 252 and 253 announce a little-endian `u16`, `u32` or
//! `u64`), signed values are zigzag-folded onto unsigned ones, `bool` and
//! option tags are one byte, strings and lists carry their length first, and
//! string bytes must be valid UTF-8. A text field that is not valid UTF-8
//! signals a package produced for another runtime version; every other
//! malformation is generic corruption.

use vstd::prelude::*;
use vstd::utf8::{decode_utf8, valid_utf8};

use crate::data::{
    CameraConfig, CameraConfigV, CameraType, EntityConfig, EntityConfigV, FollowTarget,
    FollowTargetV, LightConfig, LightKind, Rgb, RuntimeData, RuntimeDataV, SceneConfig,
    SceneConfigV, ScriptRef, ScriptRefV, Transform, Vec3,
};

verus! {

/// Why a package failed to decode: it was produced by an incompatible
/// producer version, or its bytes are corrupt, truncated or of the wrong
/// shape.
#[derive(Clone, Copy, Debug, PartialEq, Eq, Structural)]
pub enum DecodeError {
    VersionMismatch,
    Corrupt,
}

/// Outcome of parsing one value at a position of the buffer: the value and
/// the position after it, a text field that is not valid UTF-8, or any other
/// malformation.
pub enum Parse<T> {
    Found { value: T, next: int },
    BadText,
    Bad,
}

/// Relates a spec-level parse outcome to what the executable parser
/// returned: the same value (up to view) and next position on success, and
/// the matching error otherwise.
pub open spec fn outcome_matches<T: DeepView>(
    p: Parse<<T as DeepView>::V>,
    r: Result<(T, usize), DecodeError>,
    pos: int,
    len: int,
) -> bool {
    match p {
        Parse::Found { value, next } => {
            &&& r matches Ok(q)
            &&& r matches Ok(q) ==> q.0.deep_view() == value && q.1 as int == next && pos < next
                <= len
        },
        Parse::BadText => r matches Err(e) && e == DecodeError::VersionMismatch,
        Parse::Bad => r matches Err(e) && e == DecodeError::Corrupt,
    }
}

/// The value of two bytes read little-endian.
pub open spec fn le2(s: Seq<u8>, pos: int) -> int {
    s[pos] + 0x100 * s[pos + 1]
}

/// The value of four bytes read little-endian.
pub open spec fn le4(s: Seq<u8>, pos: int) -> int {
    le2(s, pos) + 0x10000 * le2(s, pos + 2)
}

/// The value of eight bytes read little-endian.
pub open spec fn le8(s: Seq<u8>, pos: int) -> int {
    le4(s, pos) + 0x1_0000_0000 * le4(s, pos + 4)
}

/// One raw byte.
pub open spec fn spec_parse_u8(s: Seq<u8>, pos: int) -> Parse<u8> {
    if pos < s.len() {
        Parse::Found { value: s[pos], next: pos + 1 }
    } else {
        Parse::Bad
    }
}

/// A variable-length unsigned integer of up to 64 bits.
pub open spec fn spec_parse_u64(s: Seq<u8>, pos: int) -> Parse<u64> {
    if pos >= s.len() {
        Parse::Bad
    } else if s[pos] <= 250 {
        Parse::Found { value: s[pos] as u64, next: pos + 1 }
    } else if s[pos] == 251 {
        if pos + 3 <= s.len() {
            Parse::Found { value: le2(s, pos + 1) as u64, next: pos + 3 }
        } else {
            Parse::Bad
        }
    } else if s[pos] == 252 {
        if pos + 5 <= s.len() {
            Parse::Found { value: le4(s, pos + 1) as u64, next: pos + 5 }
        } else {
            Parse::Bad
        }
    } else if s[pos] == 253 {
        if pos + 9 <= s.len() {
            Parse::Found { value: le8(s, pos + 1) as u64, next: pos + 9 }
        } else {
            Parse::Bad
        }
    } else {
        Parse::Bad
    }
}

/// A variable-length unsigned integer of up to 32 bits: the 64-bit marker is
/// not allowed here.
pub open spec fn spec_parse_u32(s: Seq<u8>, pos: int) -> Parse<u32> {
    if pos >= s.len() {
        Parse::Bad
    } else if s[pos] <= 250 {
        Parse::Found { value: s[pos] as u32, next: pos + 1 }
    } else if s[pos] == 251 {
        if pos + 3 <= s.len() {
            Parse::Found { value: le2(s, pos + 1) as u32, next: pos + 3 }
        } else {
            Parse::Bad
        }
    } else if s[pos] == 252 {
        if pos + 5 <= s.len() {
            Parse::Found { value: le4(s, pos + 1) as u32, next: pos + 5 }
        } else {
            Parse::Bad
        }
    } else {
        Parse::Bad
    }
}

/// The signed value folded onto an unsigned one: even values are
/// non-negative, odd values negative.
pub open spec fn unzigzag32(n: u32) -> i32 {
    if n % 2 == 0 {
        (n / 2) as i32
    } else {
        (-((n / 2) as int) - 1) as i32
    }
}

/// A zigzag-folded signed 32-bit integer.
pub open spec fn spec_parse_i32(s: Seq<u8>, pos: int) -> Parse<i32> {
    match spec_parse_u32(s, pos) {
        Parse::Found { value, next } => Parse::Found { value: unzigzag32(value), next },
        Parse::BadText => Parse::BadText,
        Parse::Bad => Parse::Bad,
    }
}

/// A length prefix: a 64-bit count that must fit the machine's size type.
pub open spec fn spec_parse_len(s: Seq<u8>, pos: int) -> Parse<u64> {
    match spec_parse_u64(s, pos) {
        Parse::Found { value, next } => {
            if value <= usize::MAX as u64 {
                Parse::Found { value, next }
            } else {
                Parse::Bad
            }
        },
        Parse::BadText => Parse::BadText,
        Parse::Bad => Parse::Bad,
    }
}

/// A boolean: one byte that must be 0 or 1.
pub open spec fn spec_parse_bool(s: Seq<u8>, pos: int) -> Parse<bool> {
    if pos < s.len() {
        if s[pos] == 0 {
            Parse::Found { value: false, next: pos + 1 }
        } else if s[pos] == 1 {
            Parse::Found { value: true, next: pos + 1 }
        } else {
            Parse::Bad
        }
    } else {
        Parse::Bad
    }
}

/// A length-prefixed, UTF-8 encoded string.
pub open spec fn spec_parse_string(s: Seq<u8>, pos: int) -> Parse<Seq<char>> {
    match spec_parse_len(s, pos) {
        Parse::Found { value: n, next: p } => {
            if p + n <= s.len() {
                if valid_utf8(s.subrange(p, p + n)) {
                    Parse::Found { value: decode_utf8(s.subrange(p, p + n)), next: p + n }
                } else {
                    Parse::BadText
                }
            } else {
                Parse::Bad
            }
        },
        Parse::BadText => Parse::BadText,
        Parse::Bad => Parse::Bad,
    }
}

/// Two strings in sequence, as used for script sources and properties:
/// a name and the text filed under it.
pub open spec fn spec_parse_pair(s: Seq<u8>, pos: int) -> Parse<(Seq<char>, Seq<char>)> {
    match spec_parse_string(s, pos) {
        Parse::Found { value: a, next: p } => match spec_parse_string(s, p) {
            Parse::Found { value: b, next: q } => Parse::Found { value: (a, b), next: q },
            Parse::BadText => Parse::BadText,
            Parse::Bad => Parse::Bad,
        },
        Parse::BadText => Parse::BadText,
        Parse::Bad => Parse::Bad,
    }
}

/// `n` string pairs in sequence, appended to `acc`.
pub open spec fn spec_parse_pair_list(
    s: Seq<u8>,
    pos: int,
    n: nat,
    acc: Seq<(Seq<char>, Seq<char>)>,
) -> Parse<Seq<(Seq<char>, Seq<char>)>>
    decreases n,
{
    if n == 0 {
        Parse::Found { value: acc, next: pos }
    } else {
        match spec_parse_pair(s, pos) {
            Parse::Found { value, next } => spec_parse_pair_list(
                s,
                next,
                (n - 1) as nat,
                acc.push(value),
            ),
            Parse::BadText => Parse::BadText,
            Parse::Bad => Parse::Bad,
        }
    }
}

/// A length-prefixed list of string pairs.
pub open spec fn spec_parse_pair_seq(s: Seq<u8>, pos: int) -> Parse<Seq<(Seq<char>, Seq<char>)>> {
    match spec_parse_len(s, pos) {
        Parse::Found { value: n, next: p } => spec_parse_pair_list(s, p, n as nat, Seq::empty()),
        Parse::BadText => Parse::BadText,
        Parse::Bad => Parse::Bad,
    }
}

/// Three signed fixed-point components.
pub open spec fn spec_parse_vec3(s: Seq<u8>, pos: int) -> Parse<Vec3> {
    match spec_parse_i32(s, pos) {
        Parse::Found { value: x, next: p } => match spec_parse_i32(s, p) {
            Parse::Found { value: y, next: q } => match spec_parse_i32(s, q) {
                Parse::Found { value: z, next: t } => Parse::Found {
                    value: Vec3 { x, y, z },
                    next: t,
                },
                Parse::BadText => Parse::BadText,
                Parse::Bad => Parse::Bad,
            },
            Parse::BadText => Parse::BadText,
            Parse::Bad => Parse::Bad,
        },
        Parse::BadText => Parse::BadText,
        Parse::Bad => Parse::Bad,
    }
}

/// Position, rotation and scale.
pub open spec fn spec_parse_transform(s: Seq<u8>, pos: int) -> Parse<Transform> {
    match spec_parse_vec3(s, pos) {
        Parse::Found { value: position, next: p } => match spec_parse_vec3(s, p) {
            Parse::Found { value: rotation, next: q } => match spec_parse_vec3(s, q) {
                Parse::Found { value: scale, next: t } => Parse::Found {
                    value: Transform { position, rotation, scale },
                    next: t,
                },
                Parse::BadText => Parse::BadText,
                Parse::Bad => Parse::Bad,
            },
            Parse::BadText => Parse::BadText,
            Parse::Bad => Parse::Bad,
        },
        Parse::BadText => Parse::BadText,
        Parse::Bad => Parse::Bad,
    }
}

/// A script reference: name and source key.
pub open spec fn spec_parse_script_ref(s: Seq<u8>, pos: int) -> Parse<ScriptRefV> {
    match spec_parse_pair(s, pos) {
        Parse::Found { value, next } => Parse::Found {
            value: ScriptRefV { name: value.0, source_key: value.1 },
            next,
        },
        Parse::BadText => Parse::BadText,
        Parse::Bad => Parse::Bad,
    }
}

/// An optional script reference: a one-byte tag, 0 for absent and 1 for
/// present.
pub open spec fn spec_parse_opt_script(s: Seq<u8>, pos: int) -> Parse<Option<ScriptRefV>> {
    match spec_parse_u8(s, pos) {
        Parse::Found { value: tag, next: p } => {
            if tag == 0 {
                Parse::Found { value: None, next: p }
            } else if tag == 1 {
                match spec_parse_script_ref(s, p) {
                    Parse::Found { value, next } => Parse::Found { value: Some(value), next },
                    Parse::BadText => Parse::BadText,
                    Parse::Bad => Parse::Bad,
                }
            } else {
                Parse::Bad
            }
        },
        Parse::BadText => Parse::BadText,
        Parse::Bad => Parse::Bad,
    }
}

/// One entity description: label, model path, transform, properties and an
/// optional script reference.
pub open spec fn spec_parse_entity(s: Seq<u8>, pos: int) -> Parse<EntityConfigV> {
    match spec_parse_string(s, pos) {
        Parse::Found { value: label, next: p1 } => match spec_parse_string(s, p1) {
            Parse::Found { value: model_path, next: p2 } => match spec_parse_transform(s, p2) {
                Parse::Found { value: transform, next: p3 } => match spec_parse_pair_seq(s, p3) {
                    Parse::Found { value: properties, next: p4 } => match spec_parse_opt_script(
                        s,
                        p4,
                    ) {
                        Parse::Found { value: script, next: p5 } => Parse::Found {
                            value: EntityConfigV {
                                label,
                                model_path,
                                transform,
                                properties,
                                script,
                            },
                            next: p5,
                        },
                        Parse::BadText => Parse::BadText,
                        Parse::Bad => Parse::Bad,
                    },
                    Parse::BadText => Parse::BadText,
                    Parse::Bad => Parse::Bad,
                },
                Parse::BadText => Parse::BadText,
                Parse::Bad => Parse::Bad,
            },
            Parse::BadText => Parse::BadText,
            Parse::Bad => Parse::Bad,
        },
        Parse::BadText => Parse::BadText,
        Parse::Bad => Parse::Bad,
    }
}

/// `n` entities in sequence, appended to `acc`.
pub open spec fn spec_parse_entity_list(
    s: Seq<u8>,
    pos: int,
    n: nat,
    acc: Seq<EntityConfigV>,
) -> Parse<Seq<EntityConfigV>>
    decreases n,
{
    if n == 0 {
        Parse::Found { value: acc, next: pos }
    } else {
        match spec_parse_entity(s, pos) {
            Parse::Found { value, next } => spec_parse_entity_list(
                s,
                next,
                (n - 1) as nat,
                acc.push(value),
            ),
            Parse::BadText => Parse::BadText,
            Parse::Bad => Parse::Bad,
        }
    }
}

/// A length-prefixed list of entities.
pub open spec fn spec_parse_entity_seq(s: Seq<u8>, pos: int) -> Parse<Seq<EntityConfigV>> {
    match spec_parse_len(s, pos) {
        Parse::Found { value: n, next: p } => spec_parse_entity_list(s, p, n as nat, Seq::empty()),
        Parse::BadText => Parse::BadText,
        Parse::Bad => Parse::Bad,
    }
}

/// A camera kind, by its declared index.
pub open spec fn spec_parse_camera_type(s: Seq<u8>, pos: int) -> Parse<CameraType> {
    match spec_parse_u32(s, pos) {
        Parse::Found { value, next } => {
            if value == 0 {
                Parse::Found { value: CameraType::Player, next }
            } else if value == 1 {
                Parse::Found { value: CameraType::Debug, next }
            } else {
                Parse::Bad
            }
        },
        Parse::BadText => Parse::BadText,
        Parse::Bad => Parse::Bad,
    }
}

/// A follow target: the label to trail and the offset to keep.
pub open spec fn spec_parse_follow_target(s: Seq<u8>, pos: int) -> Parse<FollowTargetV> {
    match spec_parse_string(s, pos) {
        Parse::Found { value: target_label, next: p } => match spec_parse_vec3(s, p) {
            Parse::Found { value: offset, next: q } => Parse::Found {
                value: FollowTargetV { target_label, offset },
                next: q,
            },
            Parse::BadText => Parse::BadText,
            Parse::Bad => Parse::Bad,
        },
        Parse::BadText => Parse::BadText,
        Parse::Bad => Parse::Bad,
    }
}

/// An optional follow target.
pub open spec fn spec_parse_opt_follow(s: Seq<u8>, pos: int) -> Parse<Option<FollowTargetV>> {
    match spec_parse_u8(s, pos) {
        Parse::Found { value: tag, next: p } => {
            if tag == 0 {
                Parse::Found { value: None, next: p }
            } else if tag == 1 {
                match spec_parse_follow_target(s, p) {
                    Parse::Found { value, next } => Parse::Found { value: Some(value), next },
                    Parse::BadText => Parse::BadText,
                    Parse::Bad => Parse::Bad,
                }
            } else {
                Parse::Bad
            }
        },
        Parse::BadText => Parse::BadText,
        Parse::Bad => Parse::Bad,
    }
}

/// One camera description.
pub open spec fn spec_parse_camera(s: Seq<u8>, pos: int) -> Parse<CameraConfigV> {
    match spec_parse_camera_type(s, pos) {
        Parse::Found { value: camera_type, next: p1 } => match spec_parse_vec3(s, p1) {
            Parse::Found { value: position, next: p2 } => match spec_parse_vec3(s, p2) {
                Parse::Found { value: look_at, next: p3 } => match spec_parse_opt_follow(s, p3) {
                    Parse::Found { value: follow_target, next: p4 } => Parse::Found {
                        value: CameraConfigV { camera_type, position, look_at, follow_target },
                        next: p4,
                    },
                    Parse::BadText => Parse::BadText,
                    Parse::Bad => Parse::Bad,
                },
                Parse::BadText => Parse::BadText,
                Parse::Bad => Parse::Bad,
            },
            Parse::BadText => Parse::BadText,
            Parse::Bad => Parse::Bad,
        },
        Parse::BadText => Parse::BadText,
        Parse::Bad => Parse::Bad,
    }
}

/// `n` cameras in sequence, appended to `acc`.
pub open spec fn spec_parse_camera_list(
    s: Seq<u8>,
    pos: int,
    n: nat,
    acc: Seq<CameraConfigV>,
) -> Parse<Seq<CameraConfigV>>
    decreases n,
{
    if n == 0 {
        Parse::Found { value: acc, next: pos }
    } else {
        match spec_parse_camera(s, pos) {
            Parse::Found { value, next } => spec_parse_camera_list(
                s,
                next,
                (n - 1) as nat,
                acc.push(value),
            ),
            Parse::BadText => Parse::BadText,
            Parse::Bad => Parse::Bad,
        }
    }
}

/// A length-prefixed list of cameras.
pub open spec fn spec_parse_camera_seq(s: Seq<u8>, pos: int) -> Parse<Seq<CameraConfigV>> {
    match spec_parse_len(s, pos) {
        Parse::Found { value: n, next: p } => spec_parse_camera_list(s, p, n as nat, Seq::empty()),
        Parse::BadText => Parse::BadText,
        Parse::Bad => Parse::Bad,
    }
}

/// A light kind, by its declared index.
pub open spec fn spec_parse_light_kind(s: Seq<u8>, pos: int) -> Parse<LightKind> {
    match spec_parse_u32(s, pos) {
        Parse::Found { value, next } => {
            if value == 0 {
                Parse::Found { value: LightKind::Directional, next }
            } else if value == 1 {
                Parse::Found { value: LightKind::Point, next }
            } else if value == 2 {
                Parse::Found { value: LightKind::Spot, next }
            } else {
                Parse::Bad
            }
        },
        Parse::BadText => Parse::BadText,
        Parse::Bad => Parse::Bad,
    }
}

/// A color as three raw bytes.
pub open spec fn spec_parse_rgb(s: Seq<u8>, pos: int) -> Parse<Rgb> {
    if pos + 3 <= s.len() {
        Parse::Found {
            value: Rgb { red: s[pos], green: s[pos + 1], blue: s[pos + 2] },
            next: pos + 3,
        }
    } else {
        Parse::Bad
    }
}

/// One light description.
pub open spec fn spec_parse_light(s: Seq<u8>, pos: int) -> Parse<LightConfig> {
    match spec_parse_light_kind(s, pos) {
        Parse::Found { value: kind, next: p1 } => match spec_parse_transform(s, p1) {
            Parse::Found { value: transform, next: p2 } => match spec_parse_rgb(s, p2) {
                Parse::Found { value: color, next: p3 } => match spec_parse_u32(s, p3) {
                    Parse::Found { value: intensity, next: p4 } => match spec_parse_bool(s, p4) {
                        Parse::Found { value: enabled, next: p5 } => Parse::Found {
                            value: LightConfig { kind, transform, color, intensity, enabled },
                            next: p5,
                        },
                        Parse::BadText => Parse::BadText,
                        Parse::Bad => Parse::Bad,
                    },
                    Parse::BadText => Parse::BadText,
                    Parse::Bad => Parse::Bad,
                },
                Parse::BadText => Parse::BadText,
                Parse::Bad => Parse::Bad,
            },
            Parse::BadText => Parse::BadText,
            Parse::Bad => Parse::Bad,
        },
        Parse::BadText => Parse::BadText,
        Parse::Bad => Parse::Bad,
    }
}

/// `n` lights in sequence, appended to `acc`.
pub open spec fn spec_parse_light_list(
    s: Seq<u8>,
    pos: int,
    n: nat,
    acc: Seq<LightConfig>,
) -> Parse<Seq<LightConfig>>
    decreases n,
{
    if n == 0 {
        Parse::Found { value: acc, next: pos }
    } else {
        match spec_parse_light(s, pos) {
            Parse::Found { value, next } => spec_parse_light_list(
                s,
                next,
                (n - 1) as nat,
                acc.push(value),
            ),
            Parse::BadText => Parse::BadText,
            Parse::Bad => Parse::Bad,
        }
    }
}

/// A length-prefixed list of lights.
pub open spec fn spec_parse_light_seq(s: Seq<u8>, pos: int) -> Parse<Seq<LightConfig>> {
    match spec_parse_len(s, pos) {
        Parse::Found { value: n, next: p } => spec_parse_light_list(s, p, n as nat, Seq::empty()),
        Parse::BadText => Parse::BadText,
        Parse::Bad => Parse::Bad,
    }
}

/// One scene description: its name and the entities, cameras and lights it
/// declares.
pub open spec fn spec_parse_scene(s: Seq<u8>, pos: int) -> Parse<SceneConfigV> {
    match spec_parse_string(s, pos) {
        Parse::Found { value: scene_name, next: p1 } => match spec_parse_entity_seq(s, p1) {
            Parse::Found { value: entities, next: p2 } => match spec_parse_camera_seq(s, p2) {
                Parse::Found { value: camera_specs, next: p3 } => match spec_parse_light_seq(
                    s,
                    p3,
                ) {
                    Parse::Found { value: light_specs, next: p4 } => Parse::Found {
                        value: SceneConfigV { scene_name, entities, camera_specs, light_specs },
                        next: p4,
                    },
                    Parse::BadText => Parse::BadText,
                    Parse::Bad => Parse::Bad,
                },
                Parse::BadText => Parse::BadText,
                Parse::Bad => Parse::Bad,
            },
            Parse::BadText => Parse::BadText,
            Parse::Bad => Parse::Bad,
        },
        Parse::BadText => Parse::BadText,
        Parse::Bad => Parse::Bad,
    }
}

/// `n` scenes in sequence, appended to `acc`.
pub open spec fn spec_parse_scene_list(
    s: Seq<u8>,
    pos: int,
    n: nat,
    acc: Seq<SceneConfigV>,
) -> Parse<Seq<SceneConfigV>>
    decreases n,
{
    if n == 0 {
        Parse::Found { value: acc, next: pos }
    } else {
        match spec_parse_scene(s, pos) {
            Parse::Found { value, next } => spec_parse_scene_list(
                s,
                next,
                (n - 1) as nat,
                acc.push(value),
            ),
            Parse::BadText => Parse::BadText,
            Parse::Bad => Parse::Bad,
        }
    }
}

/// A length-prefixed list of scenes.
pub open spec fn spec_parse_scene_seq(s: Seq<u8>, pos: int) -> Parse<Seq<SceneConfigV>> {
    match spec_parse_len(s, pos) {
        Parse::Found { value: n, next: p } => spec_parse_scene_list(s, p, n as nat, Seq::empty()),
        Parse::BadText => Parse::BadText,
        Parse::Bad => Parse::Bad,
    }
}

/// A whole package: the scene list, then the script sources. Scene names and
/// script keys must be unique, since they are the lookup keys of the
/// catalogue; a package that repeats one is malformed. Trailing bytes are
/// not an error.
pub open spec fn spec_decode(s: Seq<u8>) -> Parse<RuntimeDataV> {
    match spec_parse_scene_seq(s, 0) {
        Parse::Found { value: scenes, next: p } => match spec_parse_pair_seq(s, p) {
            Parse::Found { value: scripts, next: q } => {
                if (RuntimeDataV { scenes, scripts }).wf() {
                    Parse::Found { value: RuntimeDataV { scenes, scripts }, next: q }
                } else {
                    Parse::Bad
                }
            },
            Parse::BadText => Parse::BadText,
            Parse::Bad => Parse::Bad,
        },
        Parse::BadText => Parse::BadText,
        Parse::Bad => Parse::Bad,
    }
}

/// Relies on `String::from_utf8` of std: it returns the string decoding the
/// bytes exactly when they are valid UTF-8, and fails otherwise.
#[verifier::external_body]
fn string_from_utf8(bytes: Vec<u8>) -> (r: Option<String>)
    ensures
        r is Some <==> valid_utf8(bytes@),
        r matches Some(s) ==> s@ == decode_utf8(bytes@),
{
    match String::from_utf8(bytes) {
        Ok(s) => Some(s),
        Err(_) => None,
    }
}

fn parse_u8(bytes: &Vec<u8>, pos: usize) -> (r: Result<(u8, usize), DecodeError>)
    requires
        pos <= bytes.len(),
    ensures
        outcome_matches(spec_parse_u8(bytes@, pos as int), r, pos as int, bytes@.len() as int),
{
    if pos < bytes.len() {
        Ok((bytes[pos], pos + 1))
    } else {
        Err(DecodeError::Corrupt)
    }
}

fn parse_u64(bytes: &Vec<u8>, pos: usize) -> (r: Result<(u64, usize), DecodeError>)
    requires
        pos <= bytes.len(),
    ensures
        outcome_matches(spec_parse_u64(bytes@, pos as int), r, pos as int, bytes@.len() as int),
{
    if pos >= bytes.len() {
        return Err(DecodeError::Corrupt);
    }
    let b = bytes[pos];
    if b <= 250 {
        Ok((b as u64, pos + 1))
    } else if b == 251 {
        if bytes.len() - pos >= 3 {
            let v: u64 = (bytes[pos + 1] as u64) + 0x100 * (bytes[pos + 2] as u64);
            Ok((v, pos + 3))
        } else {
            Err(DecodeError::Corrupt)
        }
    } else if b == 252 {
        if bytes.len() - pos >= 5 {
            let v: u64 = (bytes[pos + 1] as u64) + 0x100 * (bytes[pos + 2] as u64) + 0x10000 * (
            bytes[pos + 3] as u64) + 0x100_0000 * (bytes[pos + 4] as u64);
            Ok((v, pos + 5))
        } else {
            Err(DecodeError::Corrupt)
        }
    } else if b == 253 {
        if bytes.len() - pos >= 9 {
            let v: u64 = (bytes[pos + 1] as u64) + 0x100 * (bytes[pos + 2] as u64) + 0x10000 * (
            bytes[pos + 3] as u64) + 0x100_0000 * (bytes[pos + 4] as u64) + 0x1_0000_0000 * (
            bytes[pos + 5] as u64) + 0x100_0000_0000 * (bytes[pos + 6] as u64) + 0x1_0000_0000_0000
                * (bytes[pos + 7] as u64) + 0x100_0000_0000_0000 * (bytes[pos + 8] as u64);
            Ok((v, pos + 9))
        } else {
            Err(DecodeError::Corrupt)
        }
    } else {
        Err(DecodeError::Corrupt)
    }
}

fn parse_u32(bytes: &Vec<u8>, pos: usize) -> (r: Result<(u32, usize), DecodeError>)
    requires
        pos <= bytes.len(),
    ensures
        outcome_matches(spec_parse_u32(bytes@, pos as int), r, pos as int, bytes@.len() as int),
{
    if pos >= bytes.len() {
        return Err(DecodeError::Corrupt);
    }
    let b = bytes[pos];
    if b <= 250 {
        Ok((b as u32, pos + 1))
    } else if b == 251 {
        if bytes.len() - pos >= 3 {
            let v: u32 = (bytes[pos + 1] as u32) + 0x100 * (bytes[pos + 2] as u32);
            Ok((v, pos + 3))
        } else {
            Err(DecodeError::Corrupt)
        }
    } else if b == 252 {
        if bytes.len() - pos >= 5 {
            let v: u32 = (bytes[pos + 1] as u32) + 0x100 * (bytes[pos + 2] as u32) + 0x10000 * (
            bytes[pos + 3] as u32) + 0x100_0000 * (bytes[pos + 4] as u32);
            Ok((v, pos + 5))
        } else {
            Err(DecodeError::Corrupt)
        }
    } else {
        Err(DecodeError::Corrupt)
    }
}

fn parse_i32(bytes: &Vec<u8>, pos: usize) -> (r: Result<(i32, usize), DecodeError>)
    requires
        pos <= bytes.len(),
    ensures
        outcome_matches(spec_parse_i32(bytes@, pos as int), r, pos as int, bytes@.len() as int),
{
    match parse_u32(bytes, pos) {
        Ok((n, next)) => {
            if n % 2 == 0 {
                Ok(((n / 2) as i32, next))
            } else {
                Ok((-((n / 2) as i32) - 1, next))
            }
        },
        Err(e) => Err(e),
    }
}

fn parse_len(bytes: &Vec<u8>, pos: usize) -> (r: Result<(usize, usize), DecodeError>)
    requires
        pos <= bytes.len(),
    ensures
        (match spec_parse_len(bytes@, pos as int) {
            Parse::Found { value, next } => {
                &&& r matches Ok(q)
                &&& r matches Ok(q) ==> q.0 as u64 == value && q.1 as int == next && pos < next
                    <= bytes@.len()
            },
            Parse::BadText => r matches Err(e) && e == DecodeError::VersionMismatch,
            Parse::Bad => r matches Err(e) && e == DecodeError::Corrupt,
        }),
{
    match parse_u64(bytes, pos) {
        Ok((v, next)) => {
            if v <= usize::MAX as u64 {
                Ok((v as usize, next))
            } else {
                Err(DecodeError::Corrupt)
            }
        },
        Err(e) => Err(e),
    }
}

fn parse_bool(bytes: &Vec<u8>, pos: usize) -> (r: Result<(bool, usize), DecodeError>)
    requires
        pos <= bytes.len(),
    ensures
        outcome_matches(spec_parse_bool(bytes@, pos as int), r, pos as int, bytes@.len() as int),
{
    if pos < bytes.len() {
        let b = bytes[pos];
        if b == 0 {
            Ok((false, pos + 1))
        } else if b == 1 {
            Ok((true, pos + 1))
        } else {
            Err(DecodeError::Corrupt)
        }
    } else {
        Err(DecodeError::Corrupt)
    }
}

fn parse_string(bytes: &Vec<u8>, pos: usize) -> (r: Result<(String, usize), DecodeError>)
    requires
        pos <= bytes.len(),
    ensures
        outcome_matches(spec_parse_string(bytes@, pos as int), r, pos as int, bytes@.len() as int),
{
    match parse_len(bytes, pos) {
        Ok((n, p)) => {
            if n <= bytes.len() - p {
                let mut buf: Vec<u8> = Vec::new();
                let mut i: usize = 0;
                while i < n
                    invariant
                        p + n <= bytes@.len(),
                        bytes@.len() <= usize::MAX,
                        i <= n,
                        buf@ == bytes@.subrange(p as int, p + i),
                    decreases n - i,
                {
                    buf.push(bytes[p + i]);
                    proof {
                        assert(bytes@.subrange(p as int, p + i + 1) =~= bytes@.subrange(
                            p as int,
                            p + i,
                        ).push(bytes@[p + i]));
                    }
                    i = i + 1;
                }
                match string_from_utf8(buf) {
                    Some(text) => Ok((text, p + n)),
                    None => Err(DecodeError::VersionMismatch),
                }
            } else {
                Err(DecodeError::Corrupt)
            }
        },
        Err(e) => Err(e),
    }
}

fn parse_pair(bytes: &Vec<u8>, pos: usize) -> (r: Result<((String, String), usize), DecodeError>)
    requires
        pos <= bytes.len(),
    ensures
        outcome_matches(spec_parse_pair(bytes@, pos as int), r, pos as int, bytes@.len() as int),
{
    match parse_string(bytes, pos) {
        Ok((a, p)) => match parse_string(bytes, p) {
            Ok((b, q)) => Ok(((a, b), q)),
            Err(e) => Err(e),
        },
        Err(e) => Err(e),
    }
}

fn parse_pair_vec(bytes: &Vec<u8>, pos: usize) -> (r: Result<
    (Vec<(String, String)>, usize),
    DecodeError,
>)
    requires
        pos <= bytes.len(),
    ensures
        outcome_matches(spec_parse_pair_seq(bytes@, pos as int), r, pos as int, bytes@.len() as int),
{
    match parse_len(bytes, pos) {
        Ok((n, p)) => {
            let mut acc: Vec<(String, String)> = Vec::new();
            let mut cur: usize = p;
            let mut i: usize = 0;
            proof {
                assert(acc.deep_view() =~= Seq::<(Seq<char>, Seq<char>)>::empty());
            }
            while i < n
                invariant
                    i <= n,
                    cur <= bytes@.len(),
                    p <= cur,
                    spec_parse_pair_seq(bytes@, pos as int) == spec_parse_pair_list(
                        bytes@,
                        cur as int,
                        (n - i) as nat,
                        acc.deep_view(),
                    ),
                decreases n - i,
            {
                match parse_pair(bytes, cur) {
                    Ok((pair, q)) => {
                        let ghost old_dv = acc.deep_view();
                        acc.push(pair);
                        proof {
                            assert(acc.deep_view() =~= old_dv.push(pair.deep_view()));
                        }
                        cur = q;
                    },
                    Err(e) => {
                        return Err(e);
                    },
                }
                i = i + 1;
            }
            Ok((acc, cur))
        },
        Err(e) => Err(e),
    }
}

fn parse_vec3(bytes: &Vec<u8>, pos: usize) -> (r: Result<(Vec3, usize), DecodeError>)
    requires
        pos <= bytes.len(),
    ensures
        outcome_matches(spec_parse_vec3(bytes@, pos as int), r, pos as int, bytes@.len() as int),
{
    match parse_i32(bytes, pos) {
        Ok((x, p)) => match parse_i32(bytes, p) {
            Ok((y, q)) => match parse_i32(bytes, q) {
                Ok((z, t)) => Ok((Vec3 { x, y, z }, t)),
                Err(e) => Err(e),
            },
            Err(e) => Err(e),
        },
        Err(e) => Err(e),
    }
}

fn parse_transform(bytes: &Vec<u8>, pos: usize) -> (r: Result<(Transform, usize), DecodeError>)
    requires
        pos <= bytes.len(),
    ensures
        outcome_matches(
            spec_parse_transform(bytes@, pos as int),
            r,
            pos as int,
            bytes@.len() as int,
        ),
{
    match parse_vec3(bytes, pos) {
        Ok((position, p)) => match parse_vec3(bytes, p) {
            Ok((rotation, q)) => match parse_vec3(bytes, q) {
                Ok((scale, t)) => Ok((Transform { position, rotation, scale }, t)),
                Err(e) => Err(e),
            },
            Err(e) => Err(e),
        },
        Err(e) => Err(e),
    }
}

fn parse_opt_script(bytes: &Vec<u8>, pos: usize) -> (r: Result<
    (Option<ScriptRef>, usize),
    DecodeError,
>)
    requires
        pos <= bytes.len(),
    ensures
        outcome_matches(
            spec_parse_opt_script(bytes@, pos as int),
            r,
            pos as int,
            bytes@.len() as int,
        ),
{
    match parse_u8(bytes, pos) {
        Ok((tag, p)) => {
            if tag == 0 {
                Ok((None, p))
            } else if tag == 1 {
                match parse_pair(bytes, p) {
                    Ok(((name, source_key), q)) => Ok((Some(ScriptRef { name, source_key }), q)),
                    Err(e) => Err(e),
                }
            } else {
                Err(DecodeError::Corrupt)
            }
        },
        Err(e) => Err(e),
    }
}

fn parse_entity(bytes: &Vec<u8>, pos: usize) -> (r: Result<(EntityConfig, usize), DecodeError>)
    requires
        pos <= bytes.len(),
    ensures
        outcome_matches(spec_parse_entity(bytes@, pos as int), r, pos as int, bytes@.len() as int),
{
    match parse_string(bytes, pos) {
        Ok((label, p1)) => match parse_string(bytes, p1) {
            Ok((model_path, p2)) => match parse_transform(bytes, p2) {
                Ok((transform, p3)) => match parse_pair_vec(bytes, p3) {
                    Ok((properties, p4)) => match parse_opt_script(bytes, p4) {
                        Ok((script, p5)) => Ok(
                            (EntityConfig { label, model_path, transform, properties, script }, p5),
                        ),
                        Err(e) => Err(e),
                    },
                    Err(e) => Err(e),
                },
                Err(e) => Err(e),
            },
            Err(e) => Err(e),
        },
        Err(e) => Err(e),
    }
}

#[verifier::rlimit(60)]
fn parse_entity_vec(bytes: &Vec<u8>, pos: usize) -> (r: Result<
    (Vec<EntityConfig>, usize),
    DecodeError,
>)
    requires
        pos <= bytes.len(),
    ensures
        outcome_matches(
            spec_parse_entity_seq(bytes@, pos as int),
            r,
            pos as int,
            bytes@.len() as int,
        ),
{
    match parse_len(bytes, pos) {
        Ok((n, p)) => {
            let mut acc: Vec<EntityConfig> = Vec::new();
            let mut cur: usize = p;
            let mut i: usize = 0;
            proof {
                assert(acc.deep_view() =~= Seq::<EntityConfigV>::empty());
            }
            while i < n
                invariant
                    i <= n,
                    pos < cur,
                    cur <= bytes@.len(),
                    spec_parse_entity_seq(bytes@, pos as int) == spec_parse_entity_list(
                        bytes@,
                        cur as int,
                        (n - i) as nat,
                        acc.deep_view(),
                    ),
                decreases n - i,
            {
                match parse_entity(bytes, cur) {
                    Ok((e, q)) => {
                        let ghost old_dv = acc.deep_view();
                        let ghost ev = e.deep_view();
                        acc.push(e);
                        proof {
                            assert(acc.deep_view() =~= old_dv.push(ev));
                        }
                        cur = q;
                    },
                    Err(e) => {
                        return Err(e);
                    },
                }
                i = i + 1;
            }
            Ok((acc, cur))
        },
        Err(e) => Err(e),
    }
}

fn parse_camera_type(bytes: &Vec<u8>, pos: usize) -> (r: Result<(CameraType, usize), DecodeError>)
    requires
        pos <= bytes.len(),
    ensures
        outcome_matches(
            spec_parse_camera_type(bytes@, pos as int),
            r,
            pos as int,
            bytes@.len() as int,
        ),
{
    match parse_u32(bytes, pos) {
        Ok((v, p)) => {
            if v == 0 {
                Ok((CameraType::Player, p))
            } else if v == 1 {
                Ok((CameraType::Debug, p))
            } else {
                Err(DecodeError::Corrupt)
            }
        },
        Err(e) => Err(e),
    }
}

fn parse_opt_follow(bytes: &Vec<u8>, pos: usize) -> (r: Result<
    (Option<FollowTarget>, usize),
    DecodeError,
>)
    requires
        pos <= bytes.len(),
    ensures
        outcome_matches(
            spec_parse_opt_follow(bytes@, pos as int),
            r,
            pos as int,
            bytes@.len() as int,
        ),
{
    match parse_u8(bytes, pos) {
        Ok((tag, p)) => {
            if tag == 0 {
                Ok((None, p))
            } else if tag == 1 {
                match parse_string(bytes, p) {
                    Ok((target_label, q)) => match parse_vec3(bytes, q) {
                        Ok((offset, t)) => Ok((Some(FollowTarget { target_label, offset }), t)),
                        Err(e) => Err(e),
                    },
                    Err(e) => Err(e),
                }
            } else {
                Err(DecodeError::Corrupt)
            }
        },
        Err(e) => Err(e),
    }
}

fn parse_camera(bytes: &Vec<u8>, pos: usize) -> (r: Result<(CameraConfig, usize), DecodeError>)
    requires
        pos <= bytes.len(),
    ensures
        outcome_matches(spec_parse_camera(bytes@, pos as int), r, pos as int, bytes@.len() as int),
{
    match parse_camera_type(bytes, pos) {
        Ok((camera_type, p1)) => match parse_vec3(bytes, p1) {
            Ok((position, p2)) => match parse_vec3(bytes, p2) {
                Ok((look_at, p3)) => match parse_opt_follow(bytes, p3) {
                    Ok((follow_target, p4)) => Ok(
                        (CameraConfig { camera_type, position, look_at, follow_target }, p4),
                    ),
                    Err(e) => Err(e),
                },
                Err(e) => Err(e),
            },
            Err(e) => Err(e),
        },
        Err(e) => Err(e),
    }
}

fn parse_camera_vec(bytes: &Vec<u8>, pos: usize) -> (r: Result<
    (Vec<CameraConfig>, usize),
    DecodeError,
>)
    requires
        pos <= bytes.len(),
    ensures
        outcome_matches(
            spec_parse_camera_seq(bytes@, pos as int),
            r,
            pos as int,
            bytes@.len() as int,
        ),
{
    match parse_len(bytes, pos) {
        Ok((n, p)) => {
            let mut acc: Vec<CameraConfig> = Vec::new();
            let mut cur: usize = p;
            let mut i: usize = 0;
            proof {
                assert(acc.deep_view() =~= Seq::<CameraConfigV>::empty());
            }
            while i < n
                invariant
                    i <= n,
                    pos < cur,
                    cur <= bytes@.len(),
                    spec_parse_camera_seq(bytes@, pos as int) == spec_parse_camera_list(
                        bytes@,
                        cur as int,
                        (n - i) as nat,
                        acc.deep_view(),
                    ),
                decreases n - i,
            {
                match parse_camera(bytes, cur) {
                    Ok((c, q)) => {
                        let ghost old_dv = acc.deep_view();
                        let ghost cv = c.deep_view();
                        acc.push(c);
                        proof {
                            assert(acc.deep_view() =~= old_dv.push(cv));
                        }
                        cur = q;
                    },
                    Err(e) => {
                        return Err(e);
                    },
                }
                i = i + 1;
            }
            Ok((acc, cur))
        },
        Err(e) => Err(e),
    }
}

fn parse_light_kind(bytes: &Vec<u8>, pos: usize) -> (r: Result<(LightKind, usize), DecodeError>)
    requires
        pos <= bytes.len(),
    ensures
        outcome_matches(
            spec_parse_light_kind(bytes@, pos as int),
            r,
            pos as int,
            bytes@.len() as int,
        ),
{
    match parse_u32(bytes, pos) {
        Ok((v, p)) => {
            if v == 0 {
                Ok((LightKind::Directional, p))
            } else if v == 1 {
                Ok((LightKind::Point, p))
            } else if v == 2 {
                Ok((LightKind::Spot, p))
            } else {
                Err(DecodeError::Corrupt)
            }
        },
        Err(e) => Err(e),
    }
}

fn parse_rgb(bytes: &Vec<u8>, pos: usize) -> (r: Result<(Rgb, usize), DecodeError>)
    requires
        pos <= bytes.len(),
    ensures
        outcome_matches(spec_parse_rgb(bytes@, pos as int), r, pos as int, bytes@.len() as int),
{
    if bytes.len() - pos >= 3 {
        Ok((Rgb { red: bytes[pos], green: bytes[pos + 1], blue: bytes[pos + 2] }, pos + 3))
    } else {
        Err(DecodeError::Corrupt)
    }
}

fn parse_light(bytes: &Vec<u8>, pos: usize) -> (r: Result<(LightConfig, usize), DecodeError>)
    requires
        pos <= bytes.len(),
    ensures
        outcome_matches(spec_parse_light(bytes@, pos as int), r, pos as int, bytes@.len() as int),
{
    match parse_light_kind(bytes, pos) {
        Ok((kind, p1)) => match parse_transform(bytes, p1) {
            Ok((transform, p2)) => match parse_rgb(bytes, p2) {
                Ok((color, p3)) => match parse_u32(bytes, p3) {
                    Ok((intensity, p4)) => match parse_bool(bytes, p4) {
                        Ok((enabled, p5)) => Ok(
                            (LightConfig { kind, transform, color, intensity, enabled }, p5),
                        ),
                        Err(e) => Err(e),
                    },
                    Err(e) => Err(e),
                },
                Err(e) => Err(e),
            },
            Err(e) => Err(e),
        },
        Err(e) => Err(e),
    }
}

fn parse_light_vec(bytes: &Vec<u8>, pos: usize) -> (r: Result<
    (Vec<LightConfig>, usize),
    DecodeError,
>)
    requires
        pos <= bytes.len(),
    ensures
        outcome_matches(
            spec_parse_light_seq(bytes@, pos as int),
            r,
            pos as int,
            bytes@.len() as int,
        ),
{
    match parse_len(bytes, pos) {
        Ok((n, p)) => {
            let mut acc: Vec<LightConfig> = Vec::new();
            let mut cur: usize = p;
            let mut i: usize = 0;
            proof {
                assert(acc.deep_view() =~= Seq::<LightConfig>::empty());
            }
            while i < n
                invariant
                    i <= n,
                    pos < cur,
                    cur <= bytes@.len(),
                    spec_parse_light_seq(bytes@, pos as int) == spec_parse_light_list(
                        bytes@,
                        cur as int,
                        (n - i) as nat,
                        acc.deep_view(),
                    ),
                decreases n - i,
            {
                match parse_light(bytes, cur) {
                    Ok((l, q)) => {
                        let ghost old_dv = acc.deep_view();
                        let ghost lv = l.deep_view();
                        acc.push(l);
                        proof {
                            assert(acc.deep_view() =~= old_dv.push(lv));
                        }
                        cur = q;
                    },
                    Err(e) => {
                        return Err(e);
                    },
                }
                i = i + 1;
            }
            Ok((acc, cur))
        },
        Err(e) => Err(e),
    }
}

fn parse_scene(bytes: &Vec<u8>, pos: usize) -> (r: Result<(SceneConfig, usize), DecodeError>)
    requires
        pos <= bytes.len(),
    ensures
        outcome_matches(spec_parse_scene(bytes@, pos as int), r, pos as int, bytes@.len() as int),
{
    match parse_string(bytes, pos) {
        Ok((scene_name, p1)) => match parse_entity_vec(bytes, p1) {
            Ok((entities, p2)) => match parse_camera_vec(bytes, p2) {
                Ok((camera_specs, p3)) => match parse_light_vec(bytes, p3) {
                    Ok((light_specs, p4)) => Ok(
                        (SceneConfig { scene_name, entities, camera_specs, light_specs }, p4),
                    ),
                    Err(e) => Err(e),
                },
                Err(e) => Err(e),
            },
            Err(e) => Err(e),
        },
        Err(e) => Err(e),
    }
}

#[verifier::rlimit(60)]
fn parse_scene_vec(bytes: &Vec<u8>, pos: usize) -> (r: Result<
    (Vec<SceneConfig>, usize),
    DecodeError,
>)
    requires
        pos <= bytes.len(),
    ensures
        outcome_matches(
            spec_parse_scene_seq(bytes@, pos as int),
            r,
            pos as int,
            bytes@.len() as int,
        ),
{
    match parse_len(bytes, pos) {
        Ok((n, p)) => {
            let mut acc: Vec<SceneConfig> = Vec::new();
            let mut cur: usize = p;
            let mut i: usize = 0;
            proof {
                assert(acc.deep_view() =~= Seq::<SceneConfigV>::empty());
            }
            while i < n
                invariant
                    i <= n,
                    pos < cur,
                    cur <= bytes@.len(),
                    spec_parse_scene_seq(bytes@, pos as int) == spec_parse_scene_list(
                        bytes@,
                        cur as int,
                        (n - i) as nat,
                        acc.deep_view(),
                    ),
                decreases n - i,
            {
                match parse_scene(bytes, cur) {
                    Ok((sc, q)) => {
                        let ghost old_dv = acc.deep_view();
                        let ghost sv = sc.deep_view();
                        acc.push(sc);
                        proof {
                            assert(acc.deep_view() =~= old_dv.push(sv));
                        }
                        cur = q;
                    },
                    Err(e) => {
                        return Err(e);
                    },
                }
                i = i + 1;
            }
            Ok((acc, cur))
        },
        Err(e) => Err(e),
    }
}

fn scene_names_unique(scenes: &Vec<SceneConfig>) -> (r: bool)
    ensures
        r == (forall|i: int, j: int|
            0 <= i < j < scenes.deep_view().len() ==> scenes.deep_view()[i].scene_name
                != scenes.deep_view()[j].scene_name),
{
    let ghost dv = scenes.deep_view();
    let mut i: usize = 0;
    while i < scenes.len()
        invariant
            dv == scenes.deep_view(),
            dv.len() == scenes@.len(),
            i <= scenes@.len(),
            forall|a: int, b: int|
                0 <= a < b < dv.len() && a < i ==> dv[a].scene_name != dv[b].scene_name,
        decreases scenes@.len() - i,
    {
        let mut j: usize = i + 1;
        while j < scenes.len()
            invariant
                dv == scenes.deep_view(),
                dv.len() == scenes@.len(),
                i < j,
                i < scenes@.len(),
                j <= scenes@.len(),
                forall|b: int| i < b < j ==> dv[i as int].scene_name != dv[b].scene_name,
            decreases scenes@.len() - j,
        {
            if scenes[i].scene_name == scenes[j].scene_name {
                proof {
                    assert(dv[i as int].scene_name == dv[j as int].scene_name);
                }
                return false;
            }
            proof {
                assert(dv[i as int].scene_name != dv[j as int].scene_name);
            }
            j = j + 1;
        }
        i = i + 1;
    }
    true
}

fn script_keys_unique(scripts: &Vec<(String, String)>) -> (r: bool)
    ensures
        r == (forall|i: int, j: int|
            0 <= i < j < scripts.deep_view().len() ==> scripts.deep_view()[i].0
                != scripts.deep_view()[j].0),
{
    let ghost dv = scripts.deep_view();
    let mut i: usize = 0;
    while i < scripts.len()
        invariant
            dv == scripts.deep_view(),
            dv.len() == scripts@.len(),
            i <= scripts@.len(),
            forall|a: int, b: int| 0 <= a < b < dv.len() && a < i ==> dv[a].0 != dv[b].0,
        decreases scripts@.len() - i,
    {
        let mut j: usize = i + 1;
        while j < scripts.len()
            invariant
                dv == scripts.deep_view(),
                dv.len() == scripts@.len(),
                i < j,
                i < scripts@.len(),
                j <= scripts@.len(),
                forall|b: int| i < b < j ==> dv[i as int].0 != dv[b].0,
            decreases scripts@.len() - j,
        {
            if scripts[i].0 == scripts[j].0 {
                proof {
                    assert(dv[i as int].0 == dv[j as int].0);
                }
                return false;
            }
            proof {
                assert(dv[i as int].0 != dv[j as int].0);
            }
            j = j + 1;
        }
        i = i + 1;
    }
    true
}

/// Decode a package buffer into the runtime catalogue, also returning how
/// many bytes of the buffer the package occupied. The result is exactly what
/// the wire grammar assigns to the buffer: a catalogue with unique scene
/// names and script keys, a version-mismatch error where a text field is not
/// valid UTF-8, and a corruption error for every other malformation. Trailing
/// bytes after the package are not an error.
pub fn decode(bytes: &Vec<u8>) -> (r: Result<(RuntimeData, usize), DecodeError>)
    ensures
        (match spec_decode(bytes@) {
            Parse::Found { value, next } => {
                &&& r matches Ok(q)
                &&& r matches Ok(q) ==> q.0@ == value && q.1 as int == next && next
                    <= bytes@.len() && q.0@.wf()
            },
            Parse::BadText => r matches Err(e) && e == DecodeError::VersionMismatch,
            Parse::Bad => r matches Err(e) && e == DecodeError::Corrupt,
        }),
{
    match parse_scene_vec(bytes, 0) {
        Ok((scenes, p)) => match parse_pair_vec(bytes, p) {
            Ok((scripts, q)) => {
                if scene_names_unique(&scenes) && script_keys_unique(&scripts) {
                    Ok((RuntimeData { scenes, scripts }, q))
                } else {
                    Err(DecodeError::Corrupt)
                }
            },
            Err(e) => Err(e),
        },
        Err(e) => Err(e),
    }
}

} // verus!
