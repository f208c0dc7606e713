//! The floor under every delay that a script asks for.

use vstd::prelude::*;

verus! {

/// The shortest delay that is ever waited, in microseconds: one 250th of a
/// second.
pub const MIN_DELAY_MICROS: u64 = 4000;

/// The delay to wait for a requested one, in microseconds.
pub open spec fn clamped(requested: Option<i64>) -> int {
    match requested {
        Some(micros) if micros > MIN_DELAY_MICROS => micros as int,
        _ => MIN_DELAY_MICROS as int,
    }
}

/// The delay to wait, in microseconds, when a script asks for `requested`:
/// what was asked for, and the floor where nothing, zero, a negative delay
/// or less than the floor was asked for.
pub fn clamp_delay(requested: Option<i64>) -> (micros: u64)
    ensures
        micros == clamped(requested),
        micros >= MIN_DELAY_MICROS,
{
    match requested {
        Some(asked) => {
            if asked > 4000 {
                asked as u64
            } else {
                MIN_DELAY_MICROS
            }
        },
        None => MIN_DELAY_MICROS,
    }
}

} // verus!
