//! Camera state: the live camera record kept on camera entities, its
//! construction from declarative camera specs, and follow-target resolution.

use vstd::prelude::*;

use crate::data::{CameraConfig, CameraConfigV, CameraType, FollowTarget, FollowTargetV, Vec3};
use crate::world::{EntityRecord, EntityRecordV, World, WorldV};

verus! {

/// Wide fixed-point world coordinates, as a camera moves through sums of
/// configured positions and offsets.
#[derive(Clone, Copy, Debug, PartialEq, Eq, Structural)]
pub struct Vec3L {
    pub x: i64,
    pub y: i64,
    pub z: i64,
}

impl DeepView for Vec3L {
    type V = Vec3L;

    open spec fn deep_view(&self) -> Vec3L {
        *self
    }
}

/// The given coordinates, widened.
pub open spec fn spec_widen(v: Vec3) -> Vec3L {
    Vec3L { x: v.x as i64, y: v.y as i64, z: v.z as i64 }
}

/// The sum of two narrow coordinate triples, which always fits the wide
/// form.
pub open spec fn spec_widen_sum(a: Vec3, b: Vec3) -> Vec3L {
    Vec3L { x: (a.x + b.x) as i64, y: (a.y + b.y) as i64, z: (a.z + b.z) as i64 }
}

/// Live camera state: where the camera stands and looks, which declared
/// target it trails, and the mouse-look input it has accumulated and not yet
/// consumed.
#[derive(Clone, Debug)]
pub struct CameraRecord {
    pub camera_type: CameraType,
    pub eye: Vec3L,
    pub target: Vec3L,
    pub follow: Option<FollowTarget>,
    pub pending_look_x: i64,
    pub pending_look_y: i64,
}

/// Mathematical view of a `CameraRecord`.
pub struct CameraRecordV {
    pub camera_type: CameraType,
    pub eye: Vec3L,
    pub target: Vec3L,
    pub follow: Option<FollowTargetV>,
    pub pending_look_x: i64,
    pub pending_look_y: i64,
}

impl View for CameraRecord {
    type V = CameraRecordV;

    open spec fn view(&self) -> CameraRecordV {
        CameraRecordV {
            camera_type: self.camera_type,
            eye: self.eye,
            target: self.target,
            follow: self.follow.deep_view(),
            pending_look_x: self.pending_look_x,
            pending_look_y: self.pending_look_y,
        }
    }
}

impl DeepView for CameraRecord {
    type V = CameraRecordV;

    open spec fn deep_view(&self) -> CameraRecordV {
        self.view()
    }
}

/// The camera record a declared camera spec opens with.
pub open spec fn spec_camera_from_config(c: CameraConfigV) -> CameraRecordV {
    CameraRecordV {
        camera_type: c.camera_type,
        eye: spec_widen(c.position),
        target: spec_widen(c.look_at),
        follow: c.follow_target,
        pending_look_x: 0,
        pending_look_y: 0,
    }
}

/// The synthesized fallback camera: a debug camera at the origin, so a scene
/// without usable camera specs stays renderable.
pub open spec fn spec_default_debug_camera() -> CameraRecordV {
    CameraRecordV {
        camera_type: CameraType::Debug,
        eye: (Vec3L { x: 0, y: 0, z: 0 }),
        target: (Vec3L { x: 0, y: 0, z: 0 }),
        follow: None,
        pending_look_x: 0,
        pending_look_y: 0,
    }
}

/// Build the live camera record for one declared camera spec.
pub fn camera_from_config(c: &CameraConfig) -> (r: CameraRecord)
    ensures
        r@ == spec_camera_from_config(c@),
{
    let follow: Option<FollowTarget> = match &c.follow_target {
        Some(ft) => Some(
            FollowTarget { target_label: ft.target_label.clone(), offset: ft.offset },
        ),
        None => None,
    };
    CameraRecord {
        camera_type: c.camera_type,
        eye: Vec3L { x: c.position.x as i64, y: c.position.y as i64, z: c.position.z as i64 },
        target: Vec3L { x: c.look_at.x as i64, y: c.look_at.y as i64, z: c.look_at.z as i64 },
        follow,
        pending_look_x: 0,
        pending_look_y: 0,
    }
}

/// Build the synthesized fallback debug camera.
pub fn default_debug_camera() -> (r: CameraRecord)
    ensures
        r@ == spec_default_debug_camera(),
{
    CameraRecord {
        camera_type: CameraType::Debug,
        eye: Vec3L { x: 0, y: 0, z: 0 },
        target: Vec3L { x: 0, y: 0, z: 0 },
        follow: None,
        pending_look_x: 0,
        pending_look_y: 0,
    }
}

/// Copy a camera record.
pub fn clone_camera(c: &CameraRecord) -> (r: CameraRecord)
    ensures
        r@ == c@,
{
    CameraRecord {
        camera_type: c.camera_type,
        eye: c.eye,
        target: c.target,
        follow: match &c.follow {
            Some(ft) => Some(
                FollowTarget { target_label: ft.target_label.clone(), offset: ft.offset },
            ),
            None => None,
        },
        pending_look_x: c.pending_look_x,
        pending_look_y: c.pending_look_y,
    }
}

/// The position of the first entity, from index `i` on, that shows a model,
/// has a transform and carries the given label — the entity a follow camera
/// trails. First match wins when labels are not unique.
pub open spec fn spec_follow_pos(rows: Seq<EntityRecordV>, label: Seq<char>, i: int) -> Option<
    Vec3,
>
    decreases rows.len() - i,
{
    if i < 0 || i >= rows.len() {
        None
    } else if rows[i].model is Some && rows[i].transform is Some && rows[i].label == label {
        Some(rows[i].transform->Some_0.position)
    } else {
        spec_follow_pos(rows, label, i + 1)
    }
}

/// One camera after follow resolution: a camera with a follow target whose
/// entity is found looks at the entity's position and stands at that
/// position plus the configured offset; no match leaves the camera at its
/// last computed position.
pub open spec fn spec_followed_camera(cam: CameraRecordV, rows: Seq<EntityRecordV>) -> CameraRecordV {
    match cam.follow {
        Some(ft) => match spec_follow_pos(rows, ft.target_label, 0) {
            Some(p) => CameraRecordV {
                eye: spec_widen_sum(p, ft.offset),
                target: spec_widen(p),
                ..cam
            },
            None => cam,
        },
        None => cam,
    }
}

/// One camera after the per-frame camera update: follow resolution, then
/// the accumulated mouse-look input is consumed by the uniform update.
pub open spec fn spec_refreshed_camera(cam: CameraRecordV, rows: Seq<EntityRecordV>) -> CameraRecordV {
    CameraRecordV { pending_look_x: 0, pending_look_y: 0, ..spec_followed_camera(cam, rows) }
}

/// The world after the per-frame camera pass: every camera resolved against
/// the same pre-pass rows — cameras never mutate other entities — and its
/// pending mouse-look input consumed; every other row untouched.
pub open spec fn spec_cameras_updated(w: WorldV) -> WorldV {
    WorldV {
        rows: Seq::new(
            w.rows.len(),
            |i: int|
                match w.rows[i].camera {
                    Some(cam) => EntityRecordV {
                        camera: Some(spec_refreshed_camera(cam, w.rows)),
                        ..w.rows[i]
                    },
                    None => w.rows[i],
                },
        ),
        ..w
    }
}

/// Find the position of the first entity carrying a label, for follow
/// resolution.
fn find_follow_pos(rows: &Vec<EntityRecord>, label: &String) -> (r: Option<Vec3>)
    ensures
        r == spec_follow_pos(rows.deep_view(), label@, 0),
{
    let ghost dv = rows.deep_view();
    let n = rows.len();
    let mut i: usize = 0;
    while i < n
        invariant
            dv == rows.deep_view(),
            n == dv.len(),
            i <= n,
            spec_follow_pos(dv, label@, 0) == spec_follow_pos(dv, label@, i as int),
        decreases n - i,
    {
        if rows[i].model.is_some() && rows[i].transform.is_some() && rows[i].label == *label {
            match rows[i].transform {
                Some(t) => {
                    return Some(t.position);
                },
                None => {
                    proof {
                        assert(false);
                    }
                },
            }
        }
        i = i + 1;
    }
    None
}

/// The camera pass of one frame: resolve every follow target against the
/// rows as they stand, then consume each camera's pending mouse-look input;
/// nothing else in the world changes.
pub fn update_cameras(world: &mut World)
    ensures
        final(world)@ == spec_cameras_updated(old(world)@),
{
    let ghost pre = old(world)@;
    let n = world.rows.len();
    let mut updated: Vec<Option<CameraRecord>> = Vec::new();
    let mut i: usize = 0;
    while i < n
        invariant
            world@ == pre,
            n == pre.rows.len(),
            i <= n,
            updated@.len() == i,
            forall|j: int|
                0 <= j < i ==> #[trigger] updated.deep_view()[j] == (match pre.rows[j].camera {
                    Some(cam) => Some(spec_refreshed_camera(cam, pre.rows)),
                    None => None,
                }),
        decreases n - i,
    {
        let next: Option<CameraRecord> = match &world.rows[i].camera {
            Some(cam) => {
                let (eye, target): (Vec3L, Vec3L) = match &cam.follow {
                    Some(ft) => match find_follow_pos(&world.rows, &ft.target_label) {
                        Some(p) => (
                            Vec3L {
                                x: (p.x as i64) + (ft.offset.x as i64),
                                y: (p.y as i64) + (ft.offset.y as i64),
                                z: (p.z as i64) + (ft.offset.z as i64),
                            },
                            Vec3L { x: p.x as i64, y: p.y as i64, z: p.z as i64 },
                        ),
                        None => (cam.eye, cam.target),
                    },
                    None => (cam.eye, cam.target),
                };
                Some(
                    CameraRecord {
                        camera_type: cam.camera_type,
                        eye,
                        target,
                        follow: match &cam.follow {
                            Some(ft) => Some(
                                FollowTarget {
                                    target_label: ft.target_label.clone(),
                                    offset: ft.offset,
                                },
                            ),
                            None => None,
                        },
                        pending_look_x: 0,
                        pending_look_y: 0,
                    },
                )
            },
            None => None,
        };
        let ghost prev_dv = updated.deep_view();
        let ghost nv = next.deep_view();
        proof {
            assert(nv == (match pre.rows[i as int].camera {
                Some(cam) => Some(spec_refreshed_camera(cam, pre.rows)),
                None => None,
            }));
        }
        updated.push(next);
        proof {
            assert(updated.deep_view() =~= prev_dv.push(nv));
        }
        i = i + 1;
    }
    let mut k: usize = n;
    while k > 0
        invariant
            n == pre.rows.len(),
            k <= n,
            updated@.len() == k,
            forall|j: int|
                0 <= j < k ==> #[trigger] updated.deep_view()[j] == (match pre.rows[j].camera {
                    Some(cam) => Some(spec_refreshed_camera(cam, pre.rows)),
                    None => None,
                }),
            world@.generation == pre.generation,
            world@.rows.len() == n,
            forall|j: int| 0 <= j < k ==> world@.rows[j] == pre.rows[j],
            forall|j: int|
                k <= j < n ==> world@.rows[j] == spec_cameras_updated(pre).rows[j],
        decreases k,
    {
        k = k - 1;
        let ghost prev_udv = updated.deep_view();
        match updated.pop() {
            Some(Some(rec)) => {
                let ghost prev_rows = world@.rows;
                let ghost rv = rec@;
                world.rows[k].camera = Some(rec);
                proof {
                    assert(updated.deep_view() =~= prev_udv.drop_last());
                    assert(world@.rows =~= prev_rows.update(
                        k as int,
                        (EntityRecordV { camera: Some(rv), ..prev_rows[k as int] }),
                    ));
                    assert(prev_udv[k as int] == Some(rv));
                    assert(world@.rows[k as int] == spec_cameras_updated(pre).rows[k as int]);
                }
            },
            Some(None) => {
                proof {
                    assert(updated.deep_view() =~= prev_udv.drop_last());
                    assert(prev_udv[k as int] is None);
                    assert(world@.rows[k as int] == pre.rows[k as int]);
                    assert(world@.rows[k as int] == spec_cameras_updated(pre).rows[k as int]);
                }
            },
            None => {
                proof {
                    assert(false);
                }
            },
        }
    }
    proof {
        assert(world@.rows =~= spec_cameras_updated(pre).rows);
    }
}

} // verus!
