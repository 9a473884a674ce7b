use vstd::prelude::*;

verus! {

/// Whether the `f32` with bit pattern `b` is a NaN.
pub open spec fn f32_nan(b: u32) -> bool {
    b & 0x7f80_0000 == 0x7f80_0000 && b & 0x007f_ffff != 0
}

/// Where the `f32` with bit pattern `b` falls on the number line: its sign and
/// magnitude bits as an integer, the same for both zeros, in the order of the
/// values (infinities included).
pub open spec fn f32_rank(b: u32) -> int {
    if b & 0x8000_0000 == 0 {
        b as int
    } else {
        -((b & 0x7fff_ffff) as int)
    }
}

/// `a < b` on the `f32`s with these bit patterns: false when either is a NaN.
pub open spec fn f32_lt(a: u32, b: u32) -> bool {
    !f32_nan(a) && !f32_nan(b) && f32_rank(a) < f32_rank(b)
}

/// `a <= b` on the `f32`s with these bit patterns: false when either is a NaN.
pub open spec fn f32_le(a: u32, b: u32) -> bool {
    !f32_nan(a) && !f32_nan(b) && f32_rank(a) <= f32_rank(b)
}

fn is_nan(b: u32) -> (r: bool)
    ensures
        r == f32_nan(b),
{
    b & 0x7f80_0000 == 0x7f80_0000 && b & 0x007f_ffff != 0
}

fn rank(b: u32) -> (r: i64)
    ensures
        r == f32_rank(b),
{
    if b & 0x8000_0000 == 0 {
        b as i64
    } else {
        let m = b & 0x7fff_ffff;
        -(m as i64)
    }
}

/// `a < b` on the `f32`s with bit patterns `a` and `b`.
pub fn f32_less(a: u32, b: u32) -> (r: bool)
    ensures
        r == f32_lt(a, b),
{
    !is_nan(a) && !is_nan(b) && rank(a) < rank(b)
}

/// `a <= b` on the `f32`s with bit patterns `a` and `b`.
pub fn f32_at_most(a: u32, b: u32) -> (r: bool)
    ensures
        r == f32_le(a, b),
{
    !is_nan(a) && !is_nan(b) && rank(a) <= rank(b)
}

/// How near the player must come to a waypoint to have reached it: two units.
pub const WAYPOINT_RADIUS: u32 = 0x4000_0000;

/// How far the heading may be off before the bot turns: a quarter radian.
pub const HEADING_TURN_THRESHOLD_RAD: u32 = 0x3e80_0000;

/// The turn threshold, negated.
pub const NEG_HEADING_TURN_THRESHOLD_RAD: u32 = 0xbe80_0000;

/// How far a waypoint must be for the bot to keep moving forward: one and a half units.
pub const MOVE_FORWARD_DISTANCE_MIN: u32 = 0x3fc0_0000;

} // verus!
