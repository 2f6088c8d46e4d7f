//! Steps of simulated input.
//!
//! A decision function never touches a device. It returns the steps that are
//! to be performed, in order, and the caller hands them to whatever performs
//! key presses, clicks and drags.

use vstd::prelude::*;
use crate::input::keyboard::KeyCode;

verus! {

/// One step of a sequence of simulated input.
#[derive(Debug, Clone, Copy, PartialEq, Eq, Structural)]
pub enum InputAction {
    /// Press and release the key that types this character.
    PressKey(char),
    /// Press and release a key that is given by name.
    PressNamedKey(KeyCode),
    /// Click the right mouse button at the cursor.
    RightClick,
    /// Click the left mouse button at the cursor.
    LeftClick,
    /// Hold the ALT key down.
    AltDown,
    /// Release the ALT key.
    AltUp,
    /// Do nothing for this many milliseconds.
    Wait(u64),
    /// Drag with the left button from one screen position to another. The
    /// performer may displace both ends by up to `jitter_px` pixels and
    /// paces the motion by `delay_ms`.
    Drag { from_x: i32, from_y: i32, to_x: i32, to_y: i32, jitter_px: u32, delay_ms: u64 },
    /// Remember where the cursor is.
    SaveCursor,
    /// Move the cursor back to the remembered position.
    RestoreCursor,
}

/// `n` presses of `key` with nothing in between.
pub open spec fn repeated_presses(key: char, n: nat) -> Seq<InputAction> {
    Seq::new(n, |i: int| InputAction::PressKey(key))
}

/// Appends `n` presses of `key`.
pub fn push_repeated_presses(plan: &mut Vec<InputAction>, key: char, n: u8)
    ensures
        final(plan)@ == old(plan)@ + repeated_presses(key, n as nat),
{
    let mut i: u8 = 0;
    while i < n
        invariant
            i <= n,
            plan@ == old(plan)@ + repeated_presses(key, i as nat),
        decreases n - i,
    {
        plan.push(InputAction::PressKey(key));
        i += 1;
    }
}

} // verus!
