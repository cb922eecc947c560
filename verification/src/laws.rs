//! Laws that relate several operations of the sequencer: materialization is
//! repeatable, stale handles stay dead, and the mouse delta is exactly the
//! net movement of one frame.

use vstd::prelude::*;

use crate::frame::spec_tick_list;
use crate::materialize::spec_load_outcome;
use crate::sequencer::{spec_mouse_delta_after, RuntimeSceneV};
use crate::world::{EntityHandle, WorldV};

verus! {

/// Materializing a scene twice in sequence — loading the same scene again,
/// with the same model handles, without switching away — yields a world
/// with the same entity count and the same component composition, and the
/// same camera active: the rows are a function of the scene, the models and
/// the script sources alone, so only the handles' generation differs.
pub proof fn lemma_materialize_idempotent(
    pre1: RuntimeSceneV,
    post1: RuntimeSceneV,
    pre2: RuntimeSceneV,
    post2: RuntimeSceneV,
    name: Seq<char>,
    models: Seq<Option<u64>>,
)
    requires
        spec_load_outcome(pre1, post1, name, models, Ok(())),
        spec_load_outcome(pre2, post2, name, models, Ok(())),
        pre1.catalogue == pre2.catalogue,
    ensures
        post1.world.rows == post2.world.rows,
        post1.world.rows.len() == post2.world.rows.len(),
        post1.active_camera->Some_0.index == post2.active_camera->Some_0.index,
{
}

/// Every entry of the tick list carries a handle of the current world
/// generation.
pub proof fn lemma_tick_list_handles(w: WorldV, i: int)
    ensures
        forall|k: int|
            0 <= k < spec_tick_list(w, i).len() ==> (#[trigger] spec_tick_list(w, i)[
                k
            ].0).generation == w.generation,
    decreases w.rows.len() - i,
{
    if i < 0 || i >= w.rows.len() {
    } else {
        lemma_tick_list_handles(w, i + 1);
        let rest = spec_tick_list(w, i + 1);
        match w.rows[i].script {
            Some(b) => {
                let e = (EntityHandle { index: i as usize, generation: w.generation }, b.name);
                assert(forall|k: int|
                    0 <= k < spec_tick_list(w, i).len() ==> #[trigger] spec_tick_list(w, i)[k]
                        == if k == 0 {
                        e
                    } else {
                        rest[k - 1]
                    });
            },
            None => {},
        }
    }
}

/// A handle from an earlier world generation is never accepted again and
/// never appears in the tick list: once the world is cleared — as on every
/// scene switch and on exit, after scripts are unbound — a script bound to
/// that handle is never ticked again, even when the handle's row index is
/// reused by a later world.
pub proof fn lemma_stale_handle_never_ticked(w: WorldV, h: EntityHandle)
    requires
        h.generation < w.generation,
    ensures
        !w.valid(h),
        forall|k: int| 0 <= k < spec_tick_list(w, 0).len() ==> spec_tick_list(w, 0)[k].0 != h,
{
    lemma_tick_list_handles(w, 0);
}

/// Loading a scene steps the world generation, so every handle of the
/// world that stood before the load — including any whose script binding
/// was removed by the load's unbind — is stale afterwards: it is not
/// accepted and is never ticked again.
pub proof fn lemma_unbound_never_ticked_after_load(
    pre: RuntimeSceneV,
    post: RuntimeSceneV,
    name: Seq<char>,
    models: Seq<Option<u64>>,
    h: EntityHandle,
)
    requires
        spec_load_outcome(pre, post, name, models, Ok(())),
        h.generation <= pre.world.generation,
    ensures
        !post.world.valid(h),
        forall|k: int|
            0 <= k < spec_tick_list(post.world, 0).len() ==> spec_tick_list(post.world, 0)[k].0
                != h,
{
    lemma_stale_handle_never_ticked(post.world, h);
}

/// The mouse delta read during a frame is exactly the net movement since
/// the end of the previous frame: an update leaves the delta empty, locked
/// cursor movements accumulate into it, and within the representable range
/// the accumulated value is the exact sum; while the cursor is free no
/// delta is tracked at all.
pub proof fn lemma_mouse_delta_net_movement(dx1: int, dy1: int, dx2: int, dy2: int)
    requires
        i64::MIN <= dx1 <= i64::MAX,
        i64::MIN <= dy1 <= i64::MAX,
        i64::MIN <= dx2 <= i64::MAX,
        i64::MIN <= dy2 <= i64::MAX,
        i64::MIN <= dx1 + dx2 <= i64::MAX,
        i64::MIN <= dy1 + dy2 <= i64::MAX,
    ensures
        spec_mouse_delta_after(spec_mouse_delta_after(None, true, dx1, dy1), true, dx2, dy2)
            == Some(((dx1 + dx2) as i64, (dy1 + dy2) as i64)),
        spec_mouse_delta_after(None, false, dx1, dy1) == None::<(i64, i64)>,
{
}

} // verus!
