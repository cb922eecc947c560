//! The live world: a generational entity-component store. Handles carry the
//! generation they were issued under; clearing the world steps the
//! generation, so a handle from a cleared world is never accepted again,
//! even when its row index is reused.

use vstd::prelude::*;

use crate::camera::{CameraRecord, CameraRecordV};
use crate::data::{LightConfig, Transform};
use crate::input::{add_clamped, spec_add_clamped};

verus! {

/// Live link from an entity to the script instance loaded for it, by the
/// name the script is registered under.
#[derive(Clone, Debug)]
pub struct ScriptBinding {
    pub name: String,
}

/// Mathematical view of a `ScriptBinding`.
pub struct ScriptBindingV {
    pub name: Seq<char>,
}

impl View for ScriptBinding {
    type V = ScriptBindingV;

    open spec fn view(&self) -> ScriptBindingV {
        ScriptBindingV { name: self.name@ }
    }
}

impl DeepView for ScriptBinding {
    type V = ScriptBindingV;

    open spec fn deep_view(&self) -> ScriptBindingV {
        self.view()
    }
}

/// One row of the live world: an entity's label and its dynamically
/// attached components.
#[derive(Clone, Debug)]
pub struct EntityRecord {
    pub label: String,
    pub model: Option<u64>,
    pub transform: Option<Transform>,
    pub properties: Vec<(String, String)>,
    pub script: Option<ScriptBinding>,
    pub camera: Option<CameraRecord>,
    pub light: Option<LightConfig>,
}

/// Mathematical view of an `EntityRecord`.
pub struct EntityRecordV {
    pub label: Seq<char>,
    pub model: Option<u64>,
    pub transform: Option<Transform>,
    pub properties: Seq<(Seq<char>, Seq<char>)>,
    pub script: Option<ScriptBindingV>,
    pub camera: Option<CameraRecordV>,
    pub light: Option<LightConfig>,
}

impl View for EntityRecord {
    type V = EntityRecordV;

    open spec fn view(&self) -> EntityRecordV {
        EntityRecordV {
            label: self.label@,
            model: self.model,
            transform: self.transform,
            properties: self.properties.deep_view(),
            script: self.script.deep_view(),
            camera: self.camera.deep_view(),
            light: self.light,
        }
    }
}

impl DeepView for EntityRecord {
    type V = EntityRecordV;

    open spec fn deep_view(&self) -> EntityRecordV {
        self.view()
    }
}

/// An opaque, stable-for-its-lifetime entity identifier: a row index and
/// the world generation it was issued under.
#[derive(Clone, Copy, Debug, PartialEq, Eq, Structural)]
pub struct EntityHandle {
    pub index: usize,
    pub generation: u64,
}

impl DeepView for EntityHandle {
    type V = EntityHandle;

    open spec fn deep_view(&self) -> EntityHandle {
        *self
    }
}

/// Mathematical view of the live world.
pub struct WorldV {
    pub generation: u64,
    pub rows: Seq<EntityRecordV>,
}

impl WorldV {
    /// A handle is accepted exactly when it was issued under the current
    /// generation and its row exists.
    pub open spec fn valid(self, h: EntityHandle) -> bool {
        h.generation == self.generation && h.index < self.rows.len()
    }
}

/// The world after an entity's transform is set: under an accepted handle
/// the row's transform is replaced and everything else kept; under a stale
/// or out-of-range handle the world is unchanged.
pub open spec fn spec_with_transform(w: WorldV, h: EntityHandle, t: Transform) -> WorldV {
    if w.valid(h) {
        WorldV {
            rows: w.rows.update(
                h.index as int,
                EntityRecordV { transform: Some(t), ..w.rows[h.index as int] },
            ),
            ..w
        }
    } else {
        w
    }
}

/// The world after a script binding is placed on an entity: under an
/// accepted handle the row carries a binding with the given script name and
/// everything else is kept; under a stale or out-of-range handle the world
/// is unchanged.
pub open spec fn spec_with_binding(w: WorldV, h: EntityHandle, name: Seq<char>) -> WorldV {
    if w.valid(h) {
        WorldV {
            rows: w.rows.update(
                h.index as int,
                EntityRecordV {
                    script: Some(ScriptBindingV { name }),
                    ..w.rows[h.index as int]
                },
            ),
            ..w
        }
    } else {
        w
    }
}

/// The world after an entity's script binding is removed: under an accepted
/// handle the row's binding leaves and everything else is kept; under a
/// stale or out-of-range handle the world is unchanged.
pub open spec fn spec_with_binding_cleared(w: WorldV, h: EntityHandle) -> WorldV {
    if w.valid(h) {
        WorldV {
            rows: w.rows.update(
                h.index as int,
                EntityRecordV { script: None, ..w.rows[h.index as int] },
            ),
            ..w
        }
    } else {
        w
    }
}

/// The world after mouse-look input for the camera a handle points at: the
/// camera's accumulated look deltas grow by the given movement, clamped at
/// the representable range; under a stale handle, or one whose row carries
/// no camera, the world is unchanged.
pub open spec fn spec_with_camera_look(w: WorldV, h: EntityHandle, dx: int, dy: int) -> WorldV {
    if w.valid(h) && w.rows[h.index as int].camera is Some {
        let cam = w.rows[h.index as int].camera->Some_0;
        WorldV {
            rows: w.rows.update(
                h.index as int,
                EntityRecordV {
                    camera: Some(
                        CameraRecordV {
                            pending_look_x: spec_add_clamped(cam.pending_look_x as int, dx) as i64,
                            pending_look_y: spec_add_clamped(cam.pending_look_y as int, dy) as i64,
                            ..cam
                        },
                    ),
                    ..w.rows[h.index as int]
                },
            ),
            ..w
        }
    } else {
        w
    }
}

/// The live world: entity rows under a generation counter.
pub struct World {
    pub generation: u64,
    pub rows: Vec<EntityRecord>,
}

impl View for World {
    type V = WorldV;

    open spec fn view(&self) -> WorldV {
        WorldV { generation: self.generation, rows: self.rows.deep_view() }
    }
}

impl World {
    /// An empty world at generation zero.
    pub fn new() -> (w: World)
        ensures
            w@.generation == 0,
            w@.rows == Seq::<EntityRecordV>::empty(),
    {
        let w = World { generation: 0, rows: Vec::new() };
        proof {
            assert(w@.rows =~= Seq::<EntityRecordV>::empty());
        }
        w
    }

    /// Discard every row and step the generation, invalidating every handle
    /// issued so far.
    pub fn clear(&mut self)
        requires
            old(self)@.generation < u64::MAX,
        ensures
            final(self)@.generation == old(self)@.generation + 1,
            final(self)@.rows == Seq::<EntityRecordV>::empty(),
    {
        self.rows = Vec::new();
        self.generation = self.generation + 1;
        proof {
            assert(self@.rows =~= Seq::<EntityRecordV>::empty());
        }
    }

    /// Append a freshly allocated entity row and hand out its handle,
    /// issued under the current generation.
    pub fn spawn(&mut self, rec: EntityRecord) -> (h: EntityHandle)
        ensures
            final(self)@.generation == old(self)@.generation,
            final(self)@.rows == old(self)@.rows.push(rec@),
            h.index == old(self)@.rows.len(),
            h.generation == old(self)@.generation,
            final(self)@.valid(h),
    {
        let ghost rv = rec@;
        let h = EntityHandle { index: self.rows.len(), generation: self.generation };
        self.rows.push(rec);
        proof {
            assert(self@.rows =~= old(self)@.rows.push(rv));
        }
        h
    }

    /// The row a handle points at, or nothing for a stale or out-of-range
    /// handle.
    pub fn get(&self, h: EntityHandle) -> (r: Option<&EntityRecord>)
        ensures
            self@.valid(h) ==> (r matches Some(rec) && rec.deep_view() == self@.rows[h.index as int]),
            !self@.valid(h) ==> r is None,
    {
        if h.generation == self.generation && h.index < self.rows.len() {
            Some(&self.rows[h.index])
        } else {
            None
        }
    }

    /// How many entities are live.
    pub fn len(&self) -> (n: usize)
        ensures
            n == self@.rows.len(),
    {
        self.rows.len()
    }

    /// Set the transform of the entity a handle points at; a stale or
    /// out-of-range handle changes nothing and is reported as such.
    pub fn set_transform(&mut self, h: EntityHandle, t: Transform) -> (ok: bool)
        ensures
            ok == old(self)@.valid(h),
            final(self)@ == spec_with_transform(old(self)@, h, t),
            !old(self)@.valid(h) ==> *final(self) == *old(self),
    {
        if h.generation == self.generation && h.index < self.rows.len() {
            self.rows[h.index].transform = Some(t);
            proof {
                assert(self@.rows =~= old(self)@.rows.update(
                    h.index as int,
                    (EntityRecordV { transform: Some(t), ..old(self)@.rows[h.index as int] }),
                ));
            }
            true
        } else {
            false
        }
    }

    /// Place a script binding on the entity a handle points at; a stale
    /// or out-of-range handle changes nothing and is reported as such.
    pub fn set_binding(&mut self, h: EntityHandle, name: String) -> (ok: bool)
        ensures
            ok == old(self)@.valid(h),
            final(self)@ == spec_with_binding(old(self)@, h, name@),
            !old(self)@.valid(h) ==> *final(self) == *old(self),
    {
        if h.generation == self.generation && h.index < self.rows.len() {
            let ghost nv = name@;
            self.rows[h.index].script = Some(ScriptBinding { name });
            proof {
                assert(self@.rows =~= old(self)@.rows.update(
                    h.index as int,
                    (EntityRecordV {
                        script: Some(ScriptBindingV { name: nv }),
                        ..old(self)@.rows[h.index as int]
                    }),
                ));
            }
            true
        } else {
            false
        }
    }

    /// Remove the script binding of the entity a handle points at; a stale
    /// or out-of-range handle changes nothing and is reported as such.
    pub fn clear_binding(&mut self, h: EntityHandle) -> (ok: bool)
        ensures
            ok == old(self)@.valid(h),
            final(self)@ == spec_with_binding_cleared(old(self)@, h),
            !old(self)@.valid(h) ==> *final(self) == *old(self),
    {
        if h.generation == self.generation && h.index < self.rows.len() {
            self.rows[h.index].script = None;
            proof {
                assert(self@.rows =~= old(self)@.rows.update(
                    h.index as int,
                    (EntityRecordV { script: None, ..old(self)@.rows[h.index as int] }),
                ));
            }
            true
        } else {
            false
        }
    }

    /// Feed mouse-look input to the camera an accepted handle points at,
    /// clamping the accumulated deltas at the representable range; a stale
    /// handle, or one whose row carries no camera, changes nothing.
    pub fn add_camera_look(&mut self, h: EntityHandle, dx: i64, dy: i64) -> (ok: bool)
        ensures
            ok == (old(self)@.valid(h) && old(self)@.rows[h.index as int].camera is Some),
            final(self)@ == spec_with_camera_look(old(self)@, h, dx as int, dy as int),
            !ok ==> *final(self) == *old(self),
    {
        if h.generation == self.generation && h.index < self.rows.len() {
            if !self.rows[h.index].camera.is_some() {
                return false;
            }
            let rec = &mut self.rows[h.index];
            match &mut rec.camera {
                Some(c) => {
                    c.pending_look_x = add_clamped(c.pending_look_x, dx);
                    c.pending_look_y = add_clamped(c.pending_look_y, dy);
                    proof {
                        assert(self@.rows =~= old(self)@.rows.update(
                            h.index as int,
                            (EntityRecordV {
                                camera: Some(
                                    (CameraRecordV {
                                        pending_look_x: spec_add_clamped(
                                            old(self)@.rows[h.index as int].camera->Some_0.pending_look_x as int,
                                            dx as int,
                                        ) as i64,
                                        pending_look_y: spec_add_clamped(
                                            old(self)@.rows[h.index as int].camera->Some_0.pending_look_y as int,
                                            dy as int,
                                        ) as i64,
                                        ..old(self)@.rows[h.index as int].camera->Some_0
                                    }),
                                ),
                                ..old(self)@.rows[h.index as int]
                            }),
                        ));
                    }
                    true
                },
                None => {
                    proof {
                        assert(false);
                    }
                    false
                },
            }
        } else {
            false
        }
    }

    /// Remove every script binding, leaving the rows otherwise untouched.
    /// Idempotent: a world without bindings is left as it is.
    pub fn unbind_all(&mut self)
        ensures
            final(self)@.generation == old(self)@.generation,
            final(self)@.rows.len() == old(self)@.rows.len(),
            forall|i: int|
                0 <= i < old(self)@.rows.len() ==> final(self)@.rows[i] == (EntityRecordV {
                    script: None,
                    ..old(self)@.rows[i]
                }),
    {
        let n = self.rows.len();
        let mut i: usize = 0;
        while i < n
            invariant
                n == self@.rows.len(),
                i <= n,
                self@.generation == old(self)@.generation,
                forall|j: int|
                    i <= j < n ==> self@.rows[j] == old(self)@.rows[j],
                forall|j: int|
                    0 <= j < i ==> self@.rows[j] == (EntityRecordV {
                        script: None,
                        ..old(self)@.rows[j]
                    }),
            decreases n - i,
        {
            let ghost prev_rows = self@.rows;
            self.rows[i].script = None;
            proof {
                assert(self@.rows =~= prev_rows.update(
                    i as int,
                    (EntityRecordV { script: None, ..prev_rows[i as int] }),
                ));
            }
            i = i + 1;
        }
    }
}

} // verus!
