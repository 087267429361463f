//! Command frames written to the wheel. Strengths and rates are exact
//! fractions of their full value, so `Level { num: 1, den: 2 }` is one half.
use vstd::prelude::*;
use crate::session::{G29Interface, SessionError};

verus! {

/// The exact level `num / den` of a strength or a rate.
#[derive(Clone, Copy, Debug, PartialEq, Eq, Structural)]
pub struct Level {
    pub num: i64,
    pub den: u64,
}

/// Largest byte of a constant force.
pub const FORCE_SCALE: u8 = 255;

/// Largest byte of an auto-center strength.
pub const AUTOCENTER_STRENGTH_SCALE: u8 = 15;

/// Largest byte of an auto-center rate.
pub const AUTOCENTER_RATE_SCALE: u8 = 255;

/// Opcode of the constant force frame and of the auto-center enable frame.
/// Some revisions of the wheel take `0x11` for the constant force; this
/// library always writes `0x14`.
pub const OPCODE_CONSTANT_FORCE: u8 = 0x14;

/// Seconds the wheel needs to recalibrate after a reset.
pub const RESET_SETTLE_SECS: u64 = 10;

/// Seconds the wheel needs to apply an auto-center effect.
pub const AUTOCENTER_SETTLE_SECS: u64 = 10;

/// Seconds the wheel needs to apply a constant force.
pub const FORCE_SETTLE_SECS: u64 = 1;

/// Whether a level is a fraction in `0..=1` with a positive denominator.
pub open spec fn level_in_range(l: Level) -> bool {
    l.den > 0 && 0 <= l.num && l.num <= l.den
}

/// `round(l * scale)`, halves rounded up.
pub open spec fn scaled_level(l: Level, scale: int) -> int {
    (2 * l.num * scale + l.den) / (2 * l.den as int)
}

/// The scaled byte of a level in range never exceeds `scale`.
pub proof fn lemma_scaled_level_bounded(l: Level, scale: int)
    requires
        level_in_range(l),
        0 <= scale <= 255,
    ensures
        0 <= scaled_level(l, scale) <= scale,
{
    let n = l.num as int;
    let d = l.den as int;
    let x = 2 * n * scale + d;
    assert(d <= x <= (2 * scale + 1) * d) by (nonlinear_arith)
        requires
            x == 2 * n * scale + d,
            0 <= n <= d,
            0 <= scale,
    ;
    assert(0 <= x / (2 * d) <= scale) by (nonlinear_arith)
        requires
            d <= x <= (2 * scale + 1) * d,
            0 < d,
            0 <= scale,
    ;
}

/// Scales a level in range to a byte in `0..=scale`.
fn scale_level(l: Level, scale: u8) -> (r: u8)
    requires
        level_in_range(l),
    ensures
        r as int == scaled_level(l, scale as int),
{
    proof {
        lemma_scaled_level_bounded(l, scale as int);
    }
    let n: u128 = l.num as u128;
    let d: u128 = l.den as u128;
    assert(2 * n * scale + d <= 511 * 0x1_0000_0000_0000_0000) by (nonlinear_arith)
        requires
            0 <= n <= d,
            d < 0x1_0000_0000_0000_0000,
            0 <= scale <= 255,
    ;
    let x: u128 = 2 * n * (scale as u128) + d;
    (x / (2 * d)) as u8
}

/// Whether `l` is a fraction in `0..=1` with a positive denominator.
pub fn is_level_in_range(l: Level) -> (r: bool)
    ensures
        r == level_in_range(l),
{
    l.den > 0 && l.num >= 0 && (l.num as u64) <= l.den
}

/// The frame that applies a constant force of the given byte.
pub open spec fn constant_force_frame(force: u8) -> Seq<u8> {
    seq![OPCODE_CONSTANT_FORCE, 0x00u8, force, 0x00u8, 0x00u8, 0x00u8, 0x00u8]
}

/// The frame that enables auto-centering.
pub open spec fn autocenter_enable_frame() -> Seq<u8> {
    seq![OPCODE_CONSTANT_FORCE, 0x00u8, 0x00u8, 0x00u8, 0x00u8, 0x00u8, 0x00u8]
}

/// The frame that sets the auto-center strength and rate bytes.
pub open spec fn autocenter_params_frame(strength: u8, rate: u8) -> Seq<u8> {
    seq![0xfeu8, 0x0du8, strength, strength, rate, 0x00u8, 0x00u8, 0x00u8]
}

/// The first frame of a reset.
pub open spec fn reset_frame_first() -> Seq<u8> {
    seq![0xf8u8, 0x0au8, 0x00u8, 0x00u8, 0x00u8, 0x00u8, 0x00u8]
}

/// The second frame of a reset, which recalibrates the steering center.
pub open spec fn reset_frame_second() -> Seq<u8> {
    seq![0xf8u8, 0x09u8, 0x05u8, 0x01u8, 0x01u8, 0x00u8, 0x00u8]
}

/// The frame that turns every effect off.
pub open spec fn force_off_frame() -> Seq<u8> {
    seq![0xf3u8, 0x00u8, 0x00u8, 0x00u8, 0x00u8, 0x00u8, 0x00u8]
}

impl G29Interface {
    /// The two frames that reset the wheel and recalibrate its steering
    /// center, to be written in order and followed by `RESET_SETTLE_SECS`
    /// of waiting.
    pub fn reset(&self) -> (r: (Vec<u8>, Vec<u8>))
        ensures
            r.0@ == reset_frame_first(),
            r.1@ == reset_frame_second(),
    {
        let first: Vec<u8> = vec![0xf8, 0x0a, 0x00, 0x00, 0x00, 0x00, 0x00];
        let second: Vec<u8> = vec![0xf8, 0x09, 0x05, 0x01, 0x01, 0x00, 0x00];
        assert(first@ =~= reset_frame_first());
        assert(second@ =~= reset_frame_second());
        (first, second)
    }

    /// The frame that applies a constant force of `strength`, or
    /// `OutOfRange` when `strength` is no fraction in `0..=1`.
    pub fn force_feedback_constant(&self, strength: Level) -> (r: Result<Vec<u8>, SessionError>)
        ensures
            !level_in_range(strength) ==> r == Err::<Vec<u8>, SessionError>(
                SessionError::OutOfRange,
            ),
            level_in_range(strength) ==> r is Ok && r->Ok_0@ == constant_force_frame(
                scaled_level(strength, FORCE_SCALE as int) as u8,
            ),
    {
        if !is_level_in_range(strength) {
            return Err(SessionError::OutOfRange);
        }
        let force = scale_level(strength, FORCE_SCALE);
        let frame: Vec<u8> = vec![OPCODE_CONSTANT_FORCE, 0x00, force, 0x00, 0x00, 0x00, 0x00];
        assert(frame@ =~= constant_force_frame(force));
        Ok(frame)
    }

    /// The two frames that set auto-centering: the enable frame, then the
    /// frame with the strength scaled to `0..=15` and the rate to `0..=255`.
    /// Both are to be written in order and followed by
    /// `AUTOCENTER_SETTLE_SECS` of waiting. Fails with `OutOfRange`, and
    /// gives no frame, when either is no fraction in `0..=1`.
    pub fn set_autocenter(&self, strength: Level, rate: Level) -> (r: Result<
        (Vec<u8>, Vec<u8>),
        SessionError,
    >)
        ensures
            !level_in_range(strength) || !level_in_range(rate) ==> r == Err::<
                (Vec<u8>, Vec<u8>),
                SessionError,
            >(SessionError::OutOfRange),
            level_in_range(strength) && level_in_range(rate) ==> r is Ok
                && r->Ok_0.0@ == autocenter_enable_frame() && r->Ok_0.1@ == autocenter_params_frame(
                scaled_level(strength, AUTOCENTER_STRENGTH_SCALE as int) as u8,
                scaled_level(rate, AUTOCENTER_RATE_SCALE as int) as u8,
            ),
    {
        if !is_level_in_range(strength) || !is_level_in_range(rate) {
            return Err(SessionError::OutOfRange);
        }
        let enable: Vec<u8> = vec![OPCODE_CONSTANT_FORCE, 0x00, 0x00, 0x00, 0x00, 0x00, 0x00];
        let s = scale_level(strength, AUTOCENTER_STRENGTH_SCALE);
        let t = scale_level(rate, AUTOCENTER_RATE_SCALE);
        let params: Vec<u8> = vec![0xfe, 0x0d, s, s, t, 0x00, 0x00, 0x00];
        assert(enable@ =~= autocenter_enable_frame());
        assert(params@ =~= autocenter_params_frame(s, t));
        Ok((enable, params))
    }

    /// The frame that turns every effect off.
    pub fn force_off(&self) -> (r: Vec<u8>)
        ensures
            r@ == force_off_frame(),
    {
        let frame: Vec<u8> = vec![0xf3, 0x00, 0x00, 0x00, 0x00, 0x00, 0x00];
        assert(frame@ =~= force_off_frame());
        frame
    }
}

} // verus!
