//! The brightness state machine.
//!
//! A `BacklightManager` tracks the last moment of user activity, the lid
//! state, and the brightness last applied to the output device. The
//! surrounding process reads the clock and the devices and delivers plain
//! values: `process_event` records activity and lid toggles, and
//! `update_backlight` (the periodic tick) recomputes the target brightness
//! and reports the single value to write when the target changed.

use vstd::prelude::*;
use crate::lookup_table::{LOOKUP_TABLE_LEN, brightness_lookup, lookup_spec};

verus! {

/// Base interval, in milliseconds, at which the external driver ticks the
/// controller. The two idle thresholds are exact multiples of it.
pub const TIMEOUT_MS: u64 = 30000;

/// Idle duration at which the output dims to `DIMMED_BRIGHTNESS`.
pub const BRIGHTNESS_DIM_TIMEOUT: u64 = TIMEOUT_MS * 3;

/// Idle duration at which the output turns off entirely.
pub const BRIGHTNESS_OFF_TIMEOUT: u64 = TIMEOUT_MS * 6;

/// The fixed low, non-zero level applied while idle but not yet off.
pub const DIMMED_BRIGHTNESS: u32 = 1;

/// Whether the device's lid is open or closed.
#[derive(Clone, Copy, Debug, PartialEq, Eq, Structural)]
pub enum LidState {
    Open,
    Closed,
}

/// One event delivered by the surrounding event source. The four activity
/// variants reset the idle timer; a lid toggle switches the lid state; any
/// other event is ignored.
#[derive(Clone, Copy, Debug, PartialEq, Eq, Structural)]
pub enum SessionEvent {
    PointerActivity,
    KeyboardActivity,
    GestureActivity,
    TouchActivity,
    LidToggle(LidState),
    Other,
}

/// The fatal error conditions of the controller and of the device plumbing
/// around it. None is recoverable: the caller aborts.
#[derive(Clone, Copy, Debug, PartialEq, Eq, Structural)]
pub enum BacklightError {
    /// Device discovery found no device matching the name pattern.
    DeviceNotFound,
    /// The source brightness attribute could not be read or parsed.
    AttributeReadFailed,
    /// Writing the output brightness attribute failed.
    AttributeWriteFailed,
    /// The source reading fell outside the lookup table's bounds.
    LookupOutOfRange,
}

/// The controller's persistent state.
pub struct BacklightManager {
    /// Timestamp, in milliseconds, of the most recent qualifying activity or
    /// lid-open transition. Never moves backward: callers feed a monotonic
    /// clock.
    pub last_active_ms: u64,
    /// The brightness last applied to the output device.
    pub current_bl: u32,
    /// The lid state as of the last lid toggle event; `Open` at start.
    pub lid_state: LidState,
}

/// Milliseconds of idle time at `now_ms`.
pub open spec fn idle_duration_ms(s: BacklightManager, now_ms: u64) -> u64
    recommends
        now_ms >= s.last_active_ms,
{
    (now_ms - s.last_active_ms) as u64
}

/// Whether the tick at this idle duration needs a fresh source brightness
/// reading: only the active branch (lid open, idle below the dim timeout)
/// consults the lookup table.
pub open spec fn wants_source_reading(lid: LidState, idle_ms: u64) -> bool {
    lid is Open && idle_ms < BRIGHTNESS_DIM_TIMEOUT
}

/// The ordered brightness policy: a closed lid forces zero; otherwise the
/// idle duration picks the lookup-mapped source reading, the dim level, or
/// zero. The reading `r` only matters when `wants_source_reading` holds.
pub open spec fn target_brightness(lid: LidState, idle_ms: u64, r: u32) -> u32
    recommends
        wants_source_reading(lid, idle_ms) ==> r < LOOKUP_TABLE_LEN,
{
    if lid is Closed {
        0
    } else if idle_ms < BRIGHTNESS_DIM_TIMEOUT {
        lookup_spec(r)
    } else if idle_ms < BRIGHTNESS_OFF_TIMEOUT {
        DIMMED_BRIGHTNESS
    } else {
        0
    }
}

/// Whether the event resets the idle timer by itself.
pub open spec fn event_is_activity(e: SessionEvent) -> bool {
    ||| e is PointerActivity
    ||| e is KeyboardActivity
    ||| e is GestureActivity
    ||| e is TouchActivity
}

/// The state after one event at `now_ms`: activity resets the idle timer; a
/// lid toggle records the new lid state and, when the lid opens, counts as
/// activity too; anything else changes nothing.
pub open spec fn process_event_spec(s: BacklightManager, e: SessionEvent, now_ms: u64) -> BacklightManager {
    match e {
        SessionEvent::PointerActivity
        | SessionEvent::KeyboardActivity
        | SessionEvent::GestureActivity
        | SessionEvent::TouchActivity => BacklightManager { last_active_ms: now_ms, ..s },
        SessionEvent::LidToggle(lid) => BacklightManager {
            lid_state: lid,
            last_active_ms: if lid is Open {
                now_ms
            } else {
                s.last_active_ms
            },
            ..s
        },
        SessionEvent::Other => s,
    }
}

/// What one tick computes: the target brightness, or the fatal error when
/// the active branch needed a source reading and got none (`source` is
/// `None`) or one outside the table's bounds.
pub open spec fn update_result(s: BacklightManager, now_ms: u64, source: Option<u32>) -> Result<u32, BacklightError>
    recommends
        now_ms >= s.last_active_ms,
{
    let idle = idle_duration_ms(s, now_ms);
    if wants_source_reading(s.lid_state, idle) {
        match source {
            Option::None => Result::Err(BacklightError::AttributeReadFailed),
            Option::Some(r) => if r < LOOKUP_TABLE_LEN {
                Result::Ok(target_brightness(s.lid_state, idle, r))
            } else {
                Result::Err(BacklightError::LookupOutOfRange)
            },
        }
    } else {
        Result::Ok(target_brightness(s.lid_state, idle, 0))
    }
}

/// The state after one tick: on success the target becomes the current
/// brightness; a failed tick changes nothing.
pub open spec fn update_spec(s: BacklightManager, now_ms: u64, source: Option<u32>) -> BacklightManager
    recommends
        now_ms >= s.last_active_ms,
{
    match update_result(s, now_ms, source) {
        Result::Ok(target) => BacklightManager { current_bl: target, ..s },
        Result::Err(_) => s,
    }
}

/// What one tick asks the caller to write: the target exactly when it
/// differs from the brightness already applied, so equal consecutive values
/// are never written twice.
pub open spec fn update_write(s: BacklightManager, now_ms: u64, source: Option<u32>) -> Result<Option<u32>, BacklightError>
    recommends
        now_ms >= s.last_active_ms,
{
    match update_result(s, now_ms, source) {
        Result::Ok(target) => Result::Ok(
            if target != s.current_bl {
                Option::Some(target)
            } else {
                Option::None
            },
        ),
        Result::Err(e) => Result::Err(e),
    }
}

impl BacklightManager {
    /// Builds the controller's initial state. The caller has already located
    /// the devices, opened the output attribute, and read the output
    /// device's current brightness; the lid starts open and the idle timer
    /// starts at the construction instant.
    pub fn new(now_ms: u64, initial_brightness: u32) -> (m: BacklightManager)
        ensures
            m.last_active_ms == now_ms,
            m.current_bl == initial_brightness,
            m.lid_state is Open,
    {
        BacklightManager {
            last_active_ms: now_ms,
            current_bl: initial_brightness,
            lid_state: LidState::Open,
        }
    }

    /// Records one event at `now_ms`, as `process_event_spec` describes. No
    /// brightness is recomputed here; that happens on the next tick.
    pub fn process_event(&mut self, event: &SessionEvent, now_ms: u64)
        requires
            now_ms >= old(self).last_active_ms,
        ensures
            *final(self) == process_event_spec(*old(self), *event, now_ms),
    {
        match event {
            SessionEvent::PointerActivity
            | SessionEvent::KeyboardActivity
            | SessionEvent::GestureActivity
            | SessionEvent::TouchActivity => {
                self.last_active_ms = now_ms;
            },
            SessionEvent::LidToggle(lid) => {
                self.lid_state = *lid;
                if matches!(lid, LidState::Open) {
                    self.last_active_ms = now_ms;
                }
            },
            SessionEvent::Other => {},
        }
    }

    /// Whether the next tick at `now_ms` will need a fresh source brightness
    /// reading. The caller reads the source device only when this holds.
    pub fn needs_source_reading(&self, now_ms: u64) -> (b: bool)
        requires
            now_ms >= self.last_active_ms,
        ensures
            b == wants_source_reading(self.lid_state, idle_duration_ms(*self, now_ms)),
    {
        let idle: u64 = now_ms - self.last_active_ms;
        matches!(self.lid_state, LidState::Open) && idle < BRIGHTNESS_DIM_TIMEOUT
    }

    /// One tick at `now_ms`. `source` is the fresh source brightness
    /// reading, or `None` when the caller could not read one; it is consulted
    /// only when `needs_source_reading` held. On success the result carries
    /// the value the caller must now write to the output device — `Some`
    /// exactly when the target differs from the brightness already applied —
    /// and the controller records it as applied. On failure nothing changes.
    pub fn update_backlight(&mut self, now_ms: u64, source: Option<u32>) -> (res: Result<Option<u32>, BacklightError>)
        requires
            now_ms >= old(self).last_active_ms,
        ensures
            *final(self) == update_spec(*old(self), now_ms, source),
            res == update_write(*old(self), now_ms, source),
    {
        let idle: u64 = now_ms - self.last_active_ms;
        let target: u32 = match self.lid_state {
            LidState::Closed => 0,
            LidState::Open => {
                if idle < BRIGHTNESS_DIM_TIMEOUT {
                    match source {
                        Option::Some(r) => {
                            if r < LOOKUP_TABLE_LEN {
                                brightness_lookup(r)
                            } else {
                                return Result::Err(BacklightError::LookupOutOfRange);
                            }
                        },
                        Option::None => {
                            return Result::Err(BacklightError::AttributeReadFailed);
                        },
                    }
                } else if idle < BRIGHTNESS_OFF_TIMEOUT {
                    DIMMED_BRIGHTNESS
                } else {
                    0
                }
            },
        };
        if target != self.current_bl {
            self.current_bl = target;
            Result::Ok(Option::Some(target))
        } else {
            Result::Ok(Option::None)
        }
    }

    /// The brightness last applied to the output device.
    pub fn current_bl(&self) -> (b: u32)
        ensures
            b == self.current_bl,
    {
        self.current_bl
    }
}

/// With the lid open, once the idle duration reaches the off timeout the
/// tick turns the output off, whatever the source device reports.
pub proof fn lemma_off_after_timeout(s: BacklightManager, now_ms: u64, source: Option<u32>)
    requires
        now_ms >= s.last_active_ms,
        s.lid_state is Open,
        idle_duration_ms(s, now_ms) >= BRIGHTNESS_OFF_TIMEOUT,
    ensures
        update_result(s, now_ms, source) == Result::<u32, BacklightError>::Ok(0),
        update_spec(s, now_ms, source).current_bl == 0,
{
}

/// With the lid open and the idle duration in the dimmed bucket — at least
/// the dim timeout and below the off timeout — the tick applies exactly the
/// fixed dim level, whatever the source device reports.
pub proof fn lemma_dimmed_bucket(s: BacklightManager, now_ms: u64, source: Option<u32>)
    requires
        now_ms >= s.last_active_ms,
        s.lid_state is Open,
        BRIGHTNESS_DIM_TIMEOUT <= idle_duration_ms(s, now_ms) < BRIGHTNESS_OFF_TIMEOUT,
    ensures
        update_result(s, now_ms, source) == Result::<u32, BacklightError>::Ok(DIMMED_BRIGHTNESS),
        update_spec(s, now_ms, source).current_bl == DIMMED_BRIGHTNESS,
{
}

/// A closed lid forces the target to zero, regardless of the idle duration
/// and of the source device's reading.
pub proof fn lemma_closed_forces_zero(s: BacklightManager, now_ms: u64, source: Option<u32>)
    requires
        now_ms >= s.last_active_ms,
        s.lid_state is Closed,
    ensures
        update_result(s, now_ms, source) == Result::<u32, BacklightError>::Ok(0),
        update_spec(s, now_ms, source).current_bl == 0,
{
}

/// Ticking twice in immediate succession — same instant, same source
/// reading, no intervening event — never asks for a second write: repeating
/// a tick leaves the state unchanged, and the repeated tick either succeeds
/// writing nothing or fails exactly as the first did.
pub proof fn lemma_update_idempotent(s: BacklightManager, now_ms: u64, source: Option<u32>)
    requires
        now_ms >= s.last_active_ms,
    ensures
        update_spec(update_spec(s, now_ms, source), now_ms, source) == update_spec(s, now_ms, source),
        update_result(s, now_ms, source) is Ok ==> update_write(update_spec(s, now_ms, source), now_ms, source)
            == Result::<Option<u32>, BacklightError>::Ok(Option::None),
        update_result(s, now_ms, source) is Err ==> update_write(update_spec(s, now_ms, source), now_ms, source)
            == update_write(s, now_ms, source),
{
}

/// Opening the lid resets the idle timer: however long the lid had been
/// closed — even past the off timeout — a tick within the dim timeout of the
/// toggle applies the lookup-mapped target, not zero and not the dim level.
pub proof fn lemma_lid_open_resets_idle(s: BacklightManager, toggle_ms: u64, tick_ms: u64, r: u32)
    requires
        s.lid_state is Closed,
        toggle_ms >= s.last_active_ms,
        idle_duration_ms(s, toggle_ms) > BRIGHTNESS_OFF_TIMEOUT,
        toggle_ms <= tick_ms,
        tick_ms - toggle_ms < BRIGHTNESS_DIM_TIMEOUT,
        r < LOOKUP_TABLE_LEN,
    ensures
        process_event_spec(s, SessionEvent::LidToggle(LidState::Open), toggle_ms).last_active_ms == toggle_ms,
        update_result(
            process_event_spec(s, SessionEvent::LidToggle(LidState::Open), toggle_ms),
            tick_ms,
            Option::Some(r),
        ) == Result::<u32, BacklightError>::Ok(lookup_spec(r)),
{
}

/// Lookup correctness: with the lid open and the idle duration below the dim
/// timeout, a tick with an in-bounds source reading `r` targets exactly the
/// table entry for `r`, and asks the caller to write it exactly when it
/// differs from the brightness already applied.
pub proof fn lemma_lookup_correct(s: BacklightManager, now_ms: u64, r: u32)
    requires
        now_ms >= s.last_active_ms,
        s.lid_state is Open,
        idle_duration_ms(s, now_ms) < BRIGHTNESS_DIM_TIMEOUT,
        r < LOOKUP_TABLE_LEN,
    ensures
        update_result(s, now_ms, Option::Some(r)) == Result::<u32, BacklightError>::Ok(lookup_spec(r)),
        update_spec(s, now_ms, Option::Some(r)).current_bl == lookup_spec(r),
        update_write(s, now_ms, Option::Some(r)) == Result::<Option<u32>, BacklightError>::Ok(
            if lookup_spec(r) != s.current_bl {
                Option::Some(lookup_spec(r))
            } else {
                Option::None
            },
        ),
{
}

/// Boundary: an idle duration exactly equal to the dim timeout falls into
/// the dimmed bucket, not the active lookup branch — the dim comparison is
/// strict.
pub proof fn lemma_dim_boundary(s: BacklightManager, now_ms: u64, source: Option<u32>)
    requires
        now_ms >= s.last_active_ms,
        s.lid_state is Open,
        idle_duration_ms(s, now_ms) == BRIGHTNESS_DIM_TIMEOUT,
    ensures
        !wants_source_reading(s.lid_state, idle_duration_ms(s, now_ms)),
        update_result(s, now_ms, source) == Result::<u32, BacklightError>::Ok(DIMMED_BRIGHTNESS),
{
}

} // verus!
