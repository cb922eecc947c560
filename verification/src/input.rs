//! Aggregated input state: the pressed-key set, mouse position and buttons,
//! the mouse delta accumulated since the last frame, and the cursor-lock
//! flag. Scripts and cameras read this state during a frame; only the input
//! event handlers mutate it between frames.

use vstd::prelude::*;
use vstd::seq_lib::*;

verus! {

/// A key event as the orchestrator distinguishes it: the quit key, the
/// cursor-lock toggle, or any other key by its code.
#[derive(Clone, Copy, Debug, PartialEq, Eq, Structural)]
pub enum Key {
    Escape,
    F1,
    Code(u32),
}

/// The sum of two values, clamped to the 64-bit signed range.
pub open spec fn spec_add_clamped(a: int, b: int) -> int {
    if a + b > i64::MAX {
        i64::MAX as int
    } else if a + b < i64::MIN {
        i64::MIN as int
    } else {
        a + b
    }
}

/// Add two accumulated deltas, clamping at the ends of the representable
/// range; within it, the sum is exact.
pub fn add_clamped(a: i64, b: i64) -> (r: i64)
    ensures
        r as int == spec_add_clamped(a as int, b as int),
{
    let s: i128 = a as i128 + b as i128;
    if s > i64::MAX as i128 {
        i64::MAX
    } else if s < i64::MIN as i128 {
        i64::MIN
    } else {
        s as i64
    }
}

/// Insert a code into a set kept as a duplicate-free vector: already
/// present, nothing changes; otherwise it is appended.
pub(crate) fn set_insert(v: &mut Vec<u32>, code: u32)
    ensures
        old(v)@.contains(code) ==> final(v)@ == old(v)@,
        !old(v)@.contains(code) ==> final(v)@ == old(v)@.push(code),
{
    let n = v.len();
    let mut i: usize = 0;
    while i < n
        invariant
            n == v@.len(),
            i <= n,
            v@ == old(v)@,
            forall|j: int| 0 <= j < i ==> v@[j] != code,
        decreases n - i,
    {
        if v[i] == code {
            return ;
        }
        i = i + 1;
    }
    assert(!v@.contains(code));
    v.push(code);
}

/// Remove a code from a set kept as a vector: the first occurrence leaves,
/// and a code that is not there changes nothing.
pub(crate) fn set_remove(v: &mut Vec<u32>, code: u32)
    ensures
        final(v)@ == old(v)@.remove_value(code),
{
    let n = v.len();
    let mut i: usize = 0;
    while i < n
        invariant
            n == v@.len(),
            i <= n,
            v@ == old(v)@,
            forall|j: int| 0 <= j < i ==> v@[j] != code,
        decreases n - i,
    {
        if v[i] == code {
            proof {
                old(v)@.index_of_first_ensures(code);
                assert(old(v)@.index_of_first(code) matches Some(k) && k == i) by {
                    old(v)@.index_of_first_ensures(code);
                }
            }
            v.remove(i);
            return ;
        }
        i = i + 1;
    }
    assert(!v@.contains(code));
    proof {
        old(v)@.index_of_first_ensures(code);
    }
}

/// Mathematical view of the aggregated input state.
pub struct InputStateV {
    pub pressed_keys: Seq<u32>,
    pub mouse_pos_x: i32,
    pub mouse_pos_y: i32,
    pub mouse_buttons: Seq<u32>,
    pub mouse_delta: Option<(i64, i64)>,
    pub is_cursor_locked: bool,
}

/// Aggregated input state, mutated only by the event handlers between
/// frames and read by scripts and cameras during a frame.
pub struct InputState {
    pub pressed_keys: Vec<u32>,
    pub mouse_pos_x: i32,
    pub mouse_pos_y: i32,
    pub mouse_buttons: Vec<u32>,
    pub mouse_delta: Option<(i64, i64)>,
    pub is_cursor_locked: bool,
}

impl View for InputState {
    type V = InputStateV;

    open spec fn view(&self) -> InputStateV {
        InputStateV {
            pressed_keys: self.pressed_keys@,
            mouse_pos_x: self.mouse_pos_x,
            mouse_pos_y: self.mouse_pos_y,
            mouse_buttons: self.mouse_buttons@,
            mouse_delta: self.mouse_delta,
            is_cursor_locked: self.is_cursor_locked,
        }
    }
}

impl InputState {
    /// The input state everything starts from: nothing pressed, cursor
    /// free, no movement seen.
    pub open spec fn spec_initial() -> InputStateV {
        InputStateV {
            pressed_keys: Seq::empty(),
            mouse_pos_x: 0,
            mouse_pos_y: 0,
            mouse_buttons: Seq::empty(),
            mouse_delta: None,
            is_cursor_locked: false,
        }
    }

    /// Fresh input state: nothing pressed, cursor free, no movement seen.
    pub fn new() -> (r: InputState)
        ensures
            r@.pressed_keys == Seq::<u32>::empty(),
            r@.mouse_buttons == Seq::<u32>::empty(),
            r@.mouse_pos_x == 0,
            r@.mouse_pos_y == 0,
            r@.mouse_delta is None,
            !r@.is_cursor_locked,
    {
        let r = InputState {
            pressed_keys: Vec::new(),
            mouse_pos_x: 0,
            mouse_pos_y: 0,
            mouse_buttons: Vec::new(),
            mouse_delta: None,
            is_cursor_locked: false,
        };
        proof {
            assert(r@.pressed_keys =~= Seq::<u32>::empty());
            assert(r@.mouse_buttons =~= Seq::<u32>::empty());
        }
        r
    }

    /// Whether a key code is in the pressed set.
    pub fn is_key_down(&self, code: u32) -> (r: bool)
        ensures
            r == self@.pressed_keys.contains(code),
    {
        contains_code(&self.pressed_keys, code)
    }

    /// Whether a mouse button code is in the pressed set.
    pub fn is_button_down(&self, code: u32) -> (r: bool)
        ensures
            r == self@.mouse_buttons.contains(code),
    {
        contains_code(&self.mouse_buttons, code)
    }
}

fn contains_code(v: &Vec<u32>, code: u32) -> (r: bool)
    ensures
        r == v@.contains(code),
{
    let n = v.len();
    let mut i: usize = 0;
    while i < n
        invariant
            n == v@.len(),
            i <= n,
            forall|j: int| 0 <= j < i ==> v@[j] != code,
        decreases n - i,
    {
        if v[i] == code {
            return true;
        }
        i = i + 1;
    }
    false
}

} // verus!
