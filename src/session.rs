//! The device session's decoded state: the axis values and the cache of the
//! last full input report, updated together from each new report.
use vstd::prelude::*;
use crate::steering::{steering_scale, steering_value};

verus! {

/// USB vendor identifier of the wheel (Logitech).
pub const VENDOR_ID: u16 = 0x046d;

/// USB product identifier of the wheel (G29 in its PlayStation 3 mode).
pub const PRODUCT_ID: u16 = 0xc24f;

/// Offset of the fine steering byte in an input report.
pub const STEERING_FINE_OFFSET: usize = 4;

/// Offset of the coarse steering byte in an input report.
pub const STEERING_COARSE_OFFSET: usize = 5;

/// Offset of the throttle byte in an input report.
pub const THROTTLE_OFFSET: usize = 6;

/// Offset of the brake byte in an input report.
pub const BRAKE_OFFSET: usize = 7;

/// Offset of the clutch byte in an input report.
pub const CLUTCH_OFFSET: usize = 8;

/// Reports shorter than this carry no axis data and are ignored.
pub const MIN_REPORT_LEN: usize = 12;

/// Size of the buffer that one read fills.
pub const REPORT_LEN: usize = 16;

/// Value of a pedal axis before any report has set it.
pub const AXIS_UNSET: u8 = 255;

/// Value of the steering axis before any report has set it: centered, so
/// that it normalizes to zero.
pub const STEERING_CENTERED: u8 = 127;

/// Errors of the device session and of the polling supervisor.
#[derive(Clone, Copy, Debug, PartialEq, Eq, Structural)]
pub enum SessionError {
    /// No device with the expected vendor and product identifiers.
    DeviceNotFound,
    /// The device exists but could not be opened.
    DeviceOpenError,
    /// A read from the device failed (a timeout is no failure).
    TransportReadError,
    /// A write to the device failed.
    TransportWriteError,
    /// A command parameter lies outside its range.
    OutOfRange,
    /// A report was decoded before a full report was cached.
    InvalidCacheState,
    /// The polling task was started while it was already running.
    AlreadyRunning,
}

/// The decoded value of each axis.
#[derive(Clone, Copy, Debug, PartialEq, Eq, Structural)]
pub struct AxisState {
    pub steering: u8,
    pub throttle: u8,
    pub brake: u8,
    pub clutch: u8,
}

impl AxisState {
    /// Steering centered and every pedal at the unset value.
    pub fn new() -> (r: AxisState)
        ensures
            r == unset_axes(),
    {
        AxisState {
            steering: STEERING_CENTERED,
            throttle: AXIS_UNSET,
            brake: AXIS_UNSET,
            clutch: AXIS_UNSET,
        }
    }
}

/// Steering centered and every pedal at the unset value.
pub open spec fn unset_axes() -> AxisState {
    AxisState { steering: STEERING_CENTERED, throttle: AXIS_UNSET, brake: AXIS_UNSET, clutch: AXIS_UNSET }
}

/// Whether a cache holds a full report to compare against.
pub open spec fn cache_established(cache: Seq<u8>) -> bool {
    cache.len() >= MIN_REPORT_LEN
}

/// Whether the report and the cache differ at offset `i`.
pub open spec fn byte_changed(report: Seq<u8>, cache: Seq<u8>, i: int) -> bool {
    report[i] != cache[i]
}

/// The axes after decoding `report` against `cache`: each axis whose bytes
/// changed takes its value from the report, every other axis keeps its value.
pub open spec fn decode_axes(axes: AxisState, cache: Seq<u8>, report: Seq<u8>) -> AxisState {
    AxisState {
        steering: if byte_changed(report, cache, STEERING_FINE_OFFSET as int) || byte_changed(
            report,
            cache,
            STEERING_COARSE_OFFSET as int,
        ) {
            steering_scale(
                report[STEERING_COARSE_OFFSET as int],
                report[STEERING_FINE_OFFSET as int],
            ) as u8
        } else {
            axes.steering
        },
        throttle: if byte_changed(report, cache, THROTTLE_OFFSET as int) {
            report[THROTTLE_OFFSET as int]
        } else {
            axes.throttle
        },
        brake: if byte_changed(report, cache, BRAKE_OFFSET as int) {
            report[BRAKE_OFFSET as int]
        } else {
            axes.brake
        },
        clutch: if byte_changed(report, cache, CLUTCH_OFFSET as int) {
            report[CLUTCH_OFFSET as int]
        } else {
            axes.clutch
        },
    }
}

/// What a session holds: the decoded axes and the cached report.
pub ghost struct SessionView {
    pub axes: AxisState,
    pub cache: Seq<u8>,
}

/// The session after decoding `report` against an established cache: a
/// short report changes nothing; a full one is decoded against the cache and
/// then replaces it.
pub open spec fn after_report(s: SessionView, report: Seq<u8>) -> SessionView {
    if report.len() < MIN_REPORT_LEN {
        s
    } else {
        SessionView { axes: decode_axes(s.axes, s.cache, report), cache: report }
    }
}

/// The session after one read: a short read changes nothing; the first full
/// report becomes the cache that later reports are compared against, and
/// every later one is decoded as `after_report` says.
pub open spec fn after_pump(s: SessionView, report: Seq<u8>) -> SessionView {
    if report.len() < MIN_REPORT_LEN {
        s
    } else if !cache_established(s.cache) {
        SessionView { axes: s.axes, cache: report }
    } else {
        after_report(s, report)
    }
}

/// Decoding a full report that differs from an established cache of the
/// same length only at the throttle byte sets the throttle to that byte,
/// keeps steering, brake and clutch, and caches the report.
pub proof fn lemma_only_throttle_changed(s: SessionView, report: Seq<u8>)
    requires
        cache_established(s.cache),
        report.len() == s.cache.len(),
        report[THROTTLE_OFFSET as int] != s.cache[THROTTLE_OFFSET as int],
        forall|i: int|
            0 <= i < report.len() && i != THROTTLE_OFFSET ==> #[trigger] report[i] == s.cache[i],
    ensures
        after_report(s, report) == (SessionView {
            axes: AxisState { throttle: report[THROTTLE_OFFSET as int], ..s.axes },
            cache: report,
        }),
{
    assert(report[STEERING_FINE_OFFSET as int] == s.cache[STEERING_FINE_OFFSET as int]);
    assert(report[STEERING_COARSE_OFFSET as int] == s.cache[STEERING_COARSE_OFFSET as int]);
    assert(report[BRAKE_OFFSET as int] == s.cache[BRAKE_OFFSET as int]);
    assert(report[CLUTCH_OFFSET as int] == s.cache[CLUTCH_OFFSET as int]);
}

/// The decoding state of the wheel: the axes and the last full report.
pub struct G29Interface {
    cache: Vec<u8>,
    state: AxisState,
}

impl View for G29Interface {
    type V = SessionView;

    closed spec fn view(&self) -> SessionView {
        SessionView { axes: self.state, cache: self.cache@ }
    }
}

impl G29Interface {
    /// The steering axis of a session is always centered or decoded, so it
    /// never exceeds `STEERING_CENTERED`.
    #[verifier::type_invariant]
    spec fn steering_in_range(&self) -> bool {
        self.state.steering <= STEERING_CENTERED
    }

    /// A session with steering centered, every pedal unset and no cached
    /// report.
    pub fn new() -> (r: G29Interface)
        ensures
            r@.axes == unset_axes(),
            r@.cache == Seq::<u8>::empty(),
    {
        G29Interface { cache: Vec::new(), state: AxisState::new() }
    }

    /// A session with steering centered, every pedal unset and `cache` as the
    /// report to compare against; a cache shorter than a full report counts
    /// as not established.
    pub fn with_cache(cache: Vec<u8>) -> (r: G29Interface)
        ensures
            r@.axes == unset_axes(),
            r@.cache == cache@,
    {
        G29Interface { cache, state: AxisState::new() }
    }

    /// Decodes `report` against the cached report and replaces the cache.
    /// Without an established cache it fails with `InvalidCacheState` and
    /// changes nothing; with one, a report shorter than a full report
    /// changes nothing.
    pub fn update_state(&mut self, report: &Vec<u8>) -> (r: Result<(), SessionError>)
        ensures
            !cache_established(old(self)@.cache) ==> r == Err::<(), SessionError>(
                SessionError::InvalidCacheState,
            ) && final(self)@ == old(self)@,
            cache_established(old(self)@.cache) ==> r is Ok && final(self)@ == after_report(
                old(self)@,
                report@,
            ),
    {
        proof {
            use_type_invariant(&*self);
        }
        if self.cache.len() < MIN_REPORT_LEN {
            return Err(SessionError::InvalidCacheState);
        }
        if report.len() < MIN_REPORT_LEN {
            return Ok(());
        }
        if report[STEERING_FINE_OFFSET] != self.cache[STEERING_FINE_OFFSET]
            || report[STEERING_COARSE_OFFSET] != self.cache[STEERING_COARSE_OFFSET] {
            self.state.steering = self.calculate_steering(
                report[STEERING_COARSE_OFFSET],
                report[STEERING_FINE_OFFSET],
            );
        }
        if report[THROTTLE_OFFSET] != self.cache[THROTTLE_OFFSET] {
            self.state.throttle = report[THROTTLE_OFFSET];
        }
        if report[BRAKE_OFFSET] != self.cache[BRAKE_OFFSET] {
            self.state.brake = report[BRAKE_OFFSET];
        }
        if report[CLUTCH_OFFSET] != self.cache[CLUTCH_OFFSET] {
            self.state.clutch = report[CLUTCH_OFFSET];
        }
        self.cache = report.clone();
        Ok(())
    }

    /// Takes the bytes of one read and returns how many there were. A short
    /// read changes nothing; the first full report becomes the cache; every
    /// later full report is decoded as `update_state` does.
    pub fn pump(&mut self, report: &Vec<u8>) -> (r: usize)
        ensures
            r == report@.len(),
            final(self)@ == after_pump(old(self)@, report@),
    {
        proof {
            use_type_invariant(&*self);
        }
        if report.len() >= MIN_REPORT_LEN {
            if self.cache.len() < MIN_REPORT_LEN {
                self.cache = report.clone();
            } else {
                // the cache is established here, so the update succeeds
                let decoded = self.update_state(report);
            }
        }
        report.len()
    }

    /// The decoded axes.
    pub fn get_state(&self) -> (r: AxisState)
        ensures
            r == self@.axes,
            r.steering <= STEERING_CENTERED,
    {
        proof {
            use_type_invariant(self);
        }
        self.state
    }

    /// The steering reading of a coarse and a fine byte.
    pub fn calculate_steering(&self, coarse: u8, fine: u8) -> (r: u8)
        ensures
            r as int == steering_scale(coarse, fine),
            r <= 100,
    {
        steering_value(coarse, fine)
    }
}

} // verus!
