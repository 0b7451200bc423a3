//! The evaluation adapter's handshake and the checks it makes before
//! evaluating a position handed over by another engine.
use vstd::prelude::*;

verus! {

/// Version of the adapter's calling convention, checked when it is loaded.
pub const ABI_VERSION: u32 = 1;

/// The score that tells the caller its input was refused.
pub const REJECTED_SCORE: i32 = i32::MIN;

pub fn rarog_hce_abi_version() -> (v: u32)
    ensures
        v == ABI_VERSION,
{
    ABI_VERSION
}

/// The side to move.
#[derive(Copy, Clone, Debug, PartialEq, Eq, Structural)]
pub enum Side {
    White,
    Black,
}

/// The side a byte names: 0 is White, 1 is Black, anything else no side.
pub open spec fn side_from_byte(b: u8) -> Option<Side> {
    if b == 0 {
        Some(Side::White)
    } else if b == 1 {
        Some(Side::Black)
    } else {
        None
    }
}

/// The checks made before a position is rebuilt: a missing piece array or
/// an unknown side to move is refused with `REJECTED_SCORE`.
pub open spec fn hce_input_side_spec(pieces_present: bool, side_to_move: u8) -> Result<Side, i32> {
    if !pieces_present {
        Err(REJECTED_SCORE)
    } else {
        match side_from_byte(side_to_move) {
            Some(side) => Ok(side),
            None => Err(REJECTED_SCORE),
        }
    }
}

pub fn hce_input_side(pieces_present: bool, side_to_move: u8) -> (r: Result<Side, i32>)
    ensures
        r == hce_input_side_spec(pieces_present, side_to_move),
{
    if !pieces_present {
        return Err(REJECTED_SCORE);
    }
    match side_to_move {
        0 => Ok(Side::White),
        1 => Ok(Side::Black),
        _ => Err(REJECTED_SCORE),
    }
}

} // verus!
