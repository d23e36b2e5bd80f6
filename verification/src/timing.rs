//! Times, budgets and queue depths of the duplex streams.
use vstd::prelude::*;
use crate::arith::{
    add_i64, ceiling_div_u64, min_i64, min_u64, mul_i64, mul_u64, sub_i64, truncating_div_i64,
    unsigned_or_zero,
};

verus! {

/// Client blocks that are queued before a direct duplex start, unless configured otherwise.
pub const DIRECT_MIN_PLAYBACK_QUEUE_PERIODS: u32 = 2;

/// The part of a period that is kept back for the final write of a direct cycle.
pub const DIRECT_WRITE_RESERVE_DIVISOR: u32 = 4;

/// The part of a hardware period that a calibrated cycle may lose to overhead.
pub const LINKED_PHASE_OVERHEAD_DIVISOR: u32 = 8;

pub const NANOS_PER_SECOND: u64 = 1_000_000_000;

/// Shortest sleep before a playback target is looked at again.
pub const MIN_TARGET_SLEEP_NANOS: u64 = 1_000;

/// A point in time as the system gives it.
#[derive(Clone, Copy, Debug, PartialEq, Eq, Structural)]
pub struct Timespec {
    pub tv_sec: i64,
    pub tv_nsec: i64,
}

/// What was seen when both directions of a direct duplex pair were ready for a period.
#[derive(Clone, Copy, Debug, PartialEq, Eq, Structural)]
pub struct DirectDuplexReadiness {
    pub playback_queued_frames: i64,
    pub observed_nanos: u64,
}

/// Nanoseconds that `frames` last at `rate`.
pub open spec fn frames_nanos(frames: u64, rate: u32) -> u64 {
    crate::arith::clamp_u64(frames * NANOS_PER_SECOND) / (rate as u64)
}

/// Nanoseconds that `frames` last at `rate`.
pub fn frame_duration_nanos(frames: u64, rate: u32) -> (nanos: u64)
    requires
        rate > 0,
    ensures
        nanos == frames_nanos(frames, rate),
{
    mul_u64(frames, NANOS_PER_SECOND) / (rate as u64)
}

/// The clock reading in nanoseconds; zero when the clock could not be read, and never negative.
pub fn monotonic_nanos(timestamp: Option<Timespec>) -> (nanos: u64)
    ensures
        nanos == match timestamp {
            Some(t) => crate::arith::clamp_u64(
                crate::arith::clamp_u64(crate::arith::clamp_u64(t.tv_sec as int) * NANOS_PER_SECOND)
                    + crate::arith::clamp_u64(t.tv_nsec as int),
            ),
            None => 0,
        },
{
    match timestamp {
        Some(t) => mul_u64(unsigned_or_zero(t.tv_sec), NANOS_PER_SECOND).saturating_add(
            unsigned_or_zero(t.tv_nsec),
        ),
        None => 0,
    }
}

/// A duration that is too long to count is counted as the longest that can be.
pub fn duration_nanos(nanos: u128) -> (bounded: u64)
    ensures
        bounded == crate::arith::clamp_u64(nanos as int),
{
    if nanos > u64::MAX as u128 {
        u64::MAX
    } else {
        nanos as u64
    }
}

/// A system time in nanoseconds.
pub open spec fn spec_timespec_nanos(t: Timespec) -> int {
    t.tv_sec * NANOS_PER_SECOND + t.tv_nsec
}

fn timespec_nanos(timestamp: Timespec) -> (nanos: i128)
    ensures
        nanos == spec_timespec_nanos(timestamp),
        -0x1_0000_0000_0000_0000_0000_0000 < nanos < 0x1_0000_0000_0000_0000_0000_0000,
{
    timestamp.tv_sec as i128 * 1_000_000_000 + timestamp.tv_nsec as i128
}

/// How much further the playback pointer is ahead of its system time than the capture pointer is:
/// each pointer is related to the time at which it was looked at, so the moment of the query does
/// not matter.
pub fn duplex_pointer_phase_from_timestamps(
    playback_system: Timespec,
    playback_audio: Timespec,
    capture_system: Timespec,
    capture_audio: Timespec,
) -> (phase: i64)
    ensures
        phase == crate::arith::clamp_i64(
            (spec_timespec_nanos(playback_audio) - spec_timespec_nanos(playback_system)) - (
            spec_timespec_nanos(capture_audio) - spec_timespec_nanos(capture_system)),
        ),
{
    let playback_offset: i128 = timespec_nanos(playback_audio) - timespec_nanos(playback_system);
    let capture_offset: i128 = timespec_nanos(capture_audio) - timespec_nanos(capture_system);
    let phase: i128 = playback_offset - capture_offset;
    if phase < i64::MIN as i128 {
        i64::MIN
    } else if phase > i64::MAX as i128 {
        i64::MAX
    } else {
        phase as i64
    }
}

/// Time to sleep while `remaining` frames still have to drain, waking `prewake_nanos` early.
pub open spec fn target_sleep(remaining: i64, rate: u32, prewake_nanos: u64) -> u64 {
    crate::arith::greatest(
        frames_nanos(crate::arith::clamp_u64(remaining as int), rate) - prewake_nanos,
        MIN_TARGET_SLEEP_NANOS as int,
    ) as u64
}

pub fn playback_target_sleep(remaining: i64, rate: u32, prewake_nanos: u64) -> (nanos: u64)
    requires
        rate > 0,
    ensures
        nanos == target_sleep(remaining, rate, prewake_nanos),
{
    let nanos: u64 = frame_duration_nanos(unsigned_or_zero(remaining), rate).saturating_sub(
        prewake_nanos,
    );
    if nanos > MIN_TARGET_SLEEP_NANOS {
        nanos
    } else {
        MIN_TARGET_SLEEP_NANOS
    }
}

/// Time to sleep to let `frames` pass; none for a count that is not positive.
pub fn sleep_for_frames(frames: i64, rate: u32) -> (nanos: Option<u64>)
    requires
        rate > 0,
    ensures
        nanos == if frames > 0 {
            Some(frames_nanos(frames as u64, rate))
        } else {
            None
        },
{
    if frames > 0 {
        Some(frame_duration_nanos(frames as u64, rate))
    } else {
        None
    }
}

/// Frames that a direct duplex pair is primed with.
pub open spec fn direct_start(period: i64, buffer: i64, queue_periods: Option<u32>) -> i64 {
    let periods = match queue_periods {
        Some(periods) => periods,
        None => DIRECT_MIN_PLAYBACK_QUEUE_PERIODS,
    };
    crate::arith::least(buffer as int, crate::arith::clamp_i64(period * periods) as int) as i64
}

pub fn direct_linked_start_frames(
    period: i64,
    buffer: i64,
    queue_periods: Option<u32>,
) -> (frames: i64)
    ensures
        frames == direct_start(period, buffer, queue_periods),
{
    let periods: u32 = match queue_periods {
        Some(periods) => periods,
        None => DIRECT_MIN_PLAYBACK_QUEUE_PERIODS,
    };
    min_i64(buffer, mul_i64(period, periods as i64))
}

/// Frames that must stay queued while the final write of a direct cycle happens.
pub open spec fn write_reserve_frames(period: i64) -> int {
    crate::arith::truncated_div(
        crate::arith::clamp_i64(period + (DIRECT_WRITE_RESERVE_DIVISOR - 1)) as int,
        DIRECT_WRITE_RESERVE_DIVISOR as int,
    )
}

/// When a direct cycle stops waiting for its client: after the configured handoff, but never so
/// late that less than the write reserve is still queued.
pub open spec fn direct_cutoff(
    readiness: DirectDuplexReadiness,
    period: i64,
    rate: u32,
    handoff_nanos: u64,
) -> u64 {
    let spare = crate::arith::clamp_u64(
        crate::arith::clamp_i64(
            readiness.playback_queued_frames - write_reserve_frames(period),
        ) as int,
    );
    crate::arith::clamp_u64(
        readiness.observed_nanos + crate::arith::least(
            handoff_nanos as int,
            frames_nanos(spare, rate) as int,
        ),
    )
}

pub fn direct_pro_cutoff_nanos(
    readiness: DirectDuplexReadiness,
    period: i64,
    rate: u32,
    handoff_nanos: u64,
) -> (cutoff: u64)
    requires
        rate > 0,
    ensures
        cutoff == direct_cutoff(readiness, period, rate, handoff_nanos),
{
    let reserve: i64 = truncating_div_i64(
        add_i64(period, (DIRECT_WRITE_RESERVE_DIVISOR - 1) as i64),
        DIRECT_WRITE_RESERVE_DIVISOR as i64,
    );
    let spare: u64 = unsigned_or_zero(sub_i64(readiness.playback_queued_frames, reserve));
    readiness.observed_nanos.saturating_add(
        min_u64(handoff_nanos, frame_duration_nanos(spare, rate)),
    )
}

/// When a timed cycle stops waiting for its client: the configured handoff after it began, but
/// never later than the queued playback beyond the reserve lasts from the capture on.
pub open spec fn handoff_target(
    capture_read_nanos: u64,
    handoff_started_nanos: u64,
    handoff_nanos: u64,
    playback_delay: i64,
    reserve_frames: i64,
    rate: u32,
) -> u64 {
    let margin = crate::arith::clamp_u64(
        crate::arith::clamp_i64(playback_delay - reserve_frames) as int,
    );
    crate::arith::least(
        crate::arith::clamp_u64(handoff_started_nanos + handoff_nanos) as int,
        crate::arith::clamp_u64(capture_read_nanos + frames_nanos(margin, rate)) as int,
    ) as u64
}

pub fn bounded_pro_handoff_target(
    capture_read_nanos: u64,
    handoff_started_nanos: u64,
    handoff_nanos: u64,
    playback_delay: i64,
    reserve_frames: i64,
    rate: u32,
) -> (target: u64)
    requires
        rate > 0,
    ensures
        target == handoff_target(
            capture_read_nanos,
            handoff_started_nanos,
            handoff_nanos,
            playback_delay,
            reserve_frames,
            rate,
        ),
{
    let configured: u64 = handoff_started_nanos.saturating_add(handoff_nanos);
    let margin: u64 = unsigned_or_zero(sub_i64(playback_delay, reserve_frames));
    min_u64(configured, capture_read_nanos.saturating_add(frame_duration_nanos(margin, rate)))
}

/// Frames that pass during the handoff, rounded up.
pub open spec fn handoff_frames(rate: u32, handoff_nanos: u64) -> i64 {
    crate::arith::clamp_i64(
        crate::arith::ceiling_div(
            crate::arith::clamp_u64(handoff_nanos * rate) as int,
            NANOS_PER_SECOND as int,
        ),
    )
}

/// Frames that a linked pair without lead is primed with: a period, the guard and the handoff.
pub open spec fn linked_start(
    period: i64,
    guard_frames: i64,
    buffer: i64,
    rate: u32,
    handoff_nanos: u64,
) -> i64 {
    crate::arith::least(
        buffer as int,
        crate::arith::clamp_i64(
            crate::arith::clamp_i64(period + guard_frames) + handoff_frames(rate, handoff_nanos),
        ) as int,
    ) as i64
}

pub fn linked_start_frames(
    period: i64,
    guard_frames: i64,
    buffer: i64,
    rate: u32,
    handoff_nanos: u64,
) -> (frames: i64)
    ensures
        frames == linked_start(period, guard_frames, buffer, rate, handoff_nanos),
{
    let frames: u64 = ceiling_div_u64(mul_u64(handoff_nanos, rate as u64), NANOS_PER_SECOND);
    let reserve: i64 = if frames > i64::MAX as u64 {
        i64::MAX
    } else {
        frames as i64
    };
    min_i64(buffer, add_i64(add_i64(period, guard_frames), reserve))
}

/// Queue depth below which a linked pair without lead is refilled: the guard and three hardware
/// periods, as far as a write still fits the buffer.
pub open spec fn zero_lead_floor(
    guard_frames: i64,
    hardware_period: i64,
    buffer: i64,
    write_frames: i64,
) -> i64 {
    crate::arith::least(
        crate::arith::clamp_i64(buffer - write_frames) as int,
        crate::arith::clamp_i64(
            guard_frames + crate::arith::clamp_i64(hardware_period * 3),
        ) as int,
    ) as i64
}

pub fn linked_zero_lead_playback_floor(
    guard_frames: i64,
    hardware_period: i64,
    buffer: i64,
    write_frames: i64,
) -> (frames: i64)
    ensures
        frames == zero_lead_floor(guard_frames, hardware_period, buffer, write_frames),
{
    min_i64(sub_i64(buffer, write_frames), add_i64(guard_frames, mul_i64(hardware_period, 3)))
}

/// Frames that a linked pair with lead is primed with.
pub open spec fn ahead_start(period: i64, hardware_period: i64, buffer: i64) -> i64 {
    crate::arith::least(
        buffer as int,
        crate::arith::clamp_i64(period + hardware_period) as int,
    ) as i64
}

pub fn linked_ahead_start_frames(period: i64, hardware_period: i64, buffer: i64) -> (frames: i64)
    ensures
        frames == ahead_start(period, hardware_period, buffer),
{
    min_i64(buffer, add_i64(period, hardware_period))
}

/// A frame count of at least one.
pub open spec fn at_least_one(frames: i64) -> u64 {
    if frames > 1 {
        frames as u64
    } else {
        1
    }
}

fn positive_frames(frames: i64) -> (count: u64)
    ensures
        count == at_least_one(frames),
{
    if frames > 1 {
        frames as u64
    } else {
        1
    }
}

/// Time from capture to playback write that a calibrated cycle must leave.
pub open spec fn phase_target(hardware_period: i64, rate: u32, handoff_nanos: u64) -> u64 {
    crate::arith::clamp_u64(
        handoff_nanos - frames_nanos(at_least_one(hardware_period), rate)
            / LINKED_PHASE_OVERHEAD_DIVISOR as u64,
    )
}

pub fn linked_phase_target_nanos(hardware_period: i64, rate: u32, handoff_nanos: u64) -> (nanos:
    u64)
    requires
        rate > 0,
    ensures
        nanos == phase_target(hardware_period, rate, handoff_nanos),
{
    let overhead: u64 = frame_duration_nanos(positive_frames(hardware_period), rate)
        / LINKED_PHASE_OVERHEAD_DIVISOR as u64;
    handoff_nanos.saturating_sub(overhead)
}

/// Periods that make up one second.
pub open spec fn warmup_cycles(rate: u32, period: i64) -> u64 {
    crate::arith::ceiling_div(rate as int, at_least_one(period) as int) as u64
}

pub fn linked_phase_warmup_cycles(rate: u32, period: i64) -> (cycles: u64)
    ensures
        cycles == warmup_cycles(rate, period),
{
    ceiling_div_u64(rate as u64, positive_frames(period))
}

/// Hardware periods as a 32-bit count of at least one.
pub open spec fn dither_modulus(hardware_period: i64) -> u32 {
    if 1 <= hardware_period <= u32::MAX {
        hardware_period as u32
    } else {
        1
    }
}

/// Frames by which a repeated start is shifted: a different part of the hardware period each time.
pub open spec fn dither_frames(attempt: u32, hardware_period: i64) -> i64 {
    (attempt % dither_modulus(hardware_period)) as i64
}

pub fn linked_phase_dither_frames(attempt: u32, hardware_period: i64) -> (frames: i64)
    ensures
        frames == dither_frames(attempt, hardware_period),
{
    let modulus: u32 = if 1 <= hardware_period && hardware_period <= u32::MAX as i64 {
        hardware_period as u32
    } else {
        1
    };
    (attempt % modulus) as i64
}

/// Priority at which playback begins: one below its own while it waits for a deferred start, so
/// that capture is not kept waiting, and at least one.
pub fn playback_startup_priority(priority: Option<i32>, deferred_start: bool) -> (startup: Option<
    i32,
>)
    ensures
        startup == match priority {
            Some(p) if deferred_start => Some(crate::arith::greatest(p - 1, 1) as i32),
            other => other,
        },
{
    match priority {
        Some(p) => if deferred_start {
            if p > 2 {
                Some(p - 1)
            } else {
                Some(1)
            }
        } else {
            Some(p)
        },
        None => None,
    }
}

/// The write of a direct cycle always finds the write reserve still queued: the client is never
/// waited for longer than the queue beyond the reserve lasts.
pub proof fn direct_cutoff_keeps_the_write_reserve(
    readiness: DirectDuplexReadiness,
    period: i64,
    rate: u32,
    handoff_nanos: u64,
)
    requires
        rate > 0,
        period >= 0,
        readiness.playback_queued_frames >= 0,
        readiness.observed_nanos + handoff_nanos <= u64::MAX,
    ensures
        readiness.observed_nanos <= direct_cutoff(readiness, period, rate, handoff_nanos)
            <= readiness.observed_nanos + handoff_nanos,
        readiness.playback_queued_frames <= write_reserve_frames(period) ==> direct_cutoff(
            readiness,
            period,
            rate,
            handoff_nanos,
        ) == readiness.observed_nanos,
{
    let spare = crate::arith::clamp_u64(
        crate::arith::clamp_i64(
            readiness.playback_queued_frames - write_reserve_frames(period),
        ) as int,
    );
    assert(write_reserve_frames(period) >= 0);
    if spare == 0 {
        assert(frames_nanos(0, rate) == 0) by {
            vstd::arithmetic::div_mod::lemma_div_basics_1(rate as int);
        }
    }
    vstd::arithmetic::div_mod::lemma_div_pos_is_pos(
        crate::arith::clamp_u64(spare * NANOS_PER_SECOND) as int,
        rate as int,
    );
}

/// Waking late consumes the client's time and not the period that keeps the hardware running: the
/// handoff target never lies beyond the time that the queue above the reserve lasts.
pub proof fn handoff_target_stays_within_the_queue(
    capture_read_nanos: u64,
    handoff_started_nanos: u64,
    handoff_nanos: u64,
    playback_delay: i64,
    reserve_frames: i64,
    rate: u32,
)
    requires
        rate > 0,
    ensures
        ({
            let target = handoff_target(
                capture_read_nanos,
                handoff_started_nanos,
                handoff_nanos,
                playback_delay,
                reserve_frames,
                rate,
            );
            &&& target <= handoff_started_nanos + handoff_nanos
            &&& playback_delay <= reserve_frames ==> target <= capture_read_nanos
        }),
{
    if playback_delay <= reserve_frames {
        assert(frames_nanos(0, rate) == 0) by {
            vstd::arithmetic::div_mod::lemma_div_basics_1(rate as int);
        }
    }
}

/// A start never queues more than the buffer holds.
pub proof fn starts_fit_the_buffer(
    period: i64,
    guard_frames: i64,
    hardware_period: i64,
    buffer: i64,
    rate: u32,
    handoff_nanos: u64,
    queue_periods: Option<u32>,
)
    ensures
        direct_start(period, buffer, queue_periods) <= buffer,
        linked_start(period, guard_frames, buffer, rate, handoff_nanos) <= buffer,
        ahead_start(period, hardware_period, buffer) <= buffer,
{
}

/// Refilling at the floor always leaves room for one write.
pub proof fn floor_leaves_room_for_a_write(
    guard_frames: i64,
    hardware_period: i64,
    buffer: i64,
    write_frames: i64,
)
    requires
        0 <= write_frames <= buffer,
    ensures
        zero_lead_floor(guard_frames, hardware_period, buffer, write_frames) + write_frames
            <= buffer,
{
}

/// The shift of a repeated start stays within one hardware period and walks through all of it.
pub proof fn dither_covers_the_hardware_period(attempt: u32, hardware_period: i64)
    requires
        1 <= hardware_period <= u32::MAX,
    ensures
        0 <= dither_frames(attempt, hardware_period) < hardware_period,
        attempt < hardware_period ==> dither_frames(attempt, hardware_period) == attempt,
{
    if attempt < hardware_period {
        vstd::arithmetic::div_mod::lemma_small_mod(attempt as nat, hardware_period as nat);
    }
    vstd::arithmetic::div_mod::lemma_mod_bound(attempt as int, hardware_period as int);
}

/// A duration in nanoseconds lasts its frames, and not a nanosecond more is missing: at `rate`
/// frames a second no more than `frames` are played in it, and one nanosecond later they are.
pub proof fn a_duration_lasts_its_frames(frames: u64, rate: u32)
    requires
        rate > 0,
    ensures
        frames_nanos(frames, rate) * rate <= frames * 1_000_000_000,
        frames * 1_000_000_000 <= u64::MAX ==> frames * 1_000_000_000 < (frames_nanos(frames, rate)
            + 1) * rate,
{
    let product = crate::arith::clamp_u64(frames * NANOS_PER_SECOND) as int;
    let divisor = rate as int;
    assert(frames * NANOS_PER_SECOND >= 0);
    vstd::arithmetic::div_mod::lemma_fundamental_div_mod(product, divisor);
    vstd::arithmetic::div_mod::lemma_mod_bound(product, divisor);
    let nanos = product / divisor;
    assert(nanos * divisor <= product < (nanos + 1) * divisor) by (nonlinear_arith)
        requires
            product == divisor * nanos + product % divisor,
            0 <= product % divisor < divisor,
    ;
}

/// Whatever the rate is, the client of a direct cycle is waited for no longer than the queue above
/// the write reserve lasts, and the reserve is a quarter of a period, rounded up: between the
/// observation and the cutoff no more than these frames are played. The wait is as long as that
/// allows: it is the whole handoff where these frames last as long, and ends within a nanosecond
/// of their end otherwise.
pub proof fn a_direct_wait_plays_the_spare_queue_alone(
    readiness: DirectDuplexReadiness,
    period: i64,
    rate: u32,
    handoff_nanos: u64,
    reserve: int,
)
    requires
        rate > 0,
        0 <= period <= i64::MAX - 3,
        period <= 4 * reserve < period + 4,
    ensures
        ({
            let cutoff = direct_cutoff(readiness, period, rate, handoff_nanos);
            let waited = cutoff - readiness.observed_nanos;
            let spare = readiness.playback_queued_frames - reserve;
            &&& 0 <= waited <= handoff_nanos
            &&& spare <= 0 ==> waited == 0
            &&& spare >= 0 ==> waited * rate <= spare * 1_000_000_000
            &&& spare >= 0 && spare * 1_000_000_000 <= u64::MAX && readiness.observed_nanos
                + handoff_nanos <= u64::MAX ==> {
                &&& handoff_nanos * rate <= spare * 1_000_000_000 ==> waited == handoff_nanos
                &&& waited < handoff_nanos ==> spare * 1_000_000_000 < (waited + 1) * rate
            }
        }),
{
    assert(write_reserve_frames(period) == reserve);
    let queued = readiness.playback_queued_frames;
    let spare = crate::arith::clamp_u64(
        crate::arith::clamp_i64(queued - write_reserve_frames(period)) as int,
    );
    assert(spare == if queued < reserve { 0 } else { queued - reserve });
    a_duration_lasts_its_frames(spare, rate);
    let nanos = frames_nanos(spare, rate) as int;
    let divisor = rate as int;
    let waited = direct_cutoff(readiness, period, rate, handoff_nanos) - readiness.observed_nanos;
    assert(nanos >= 0);
    assert(0 <= waited <= nanos);
    assert(waited * divisor <= nanos * divisor) by (nonlinear_arith)
        requires
            waited <= nanos,
            divisor > 0,
    ;
    if spare == 0 {
        assert(nanos == 0) by (nonlinear_arith)
            requires
                nanos * divisor <= 0,
                nanos >= 0,
                divisor > 0,
        ;
    }
    if handoff_nanos * rate <= spare * 1_000_000_000 && spare * 1_000_000_000 <= u64::MAX {
        assert(handoff_nanos <= nanos) by (nonlinear_arith)
            requires
                handoff_nanos * divisor < (nanos + 1) * divisor,
                divisor > 0,
        ;
    }
}

/// Waking late takes from the client's time only: a timed cycle waits neither past the handoff nor
/// past the time that the queue above the reserve lasts from the capture on, whatever the rate is,
/// and it waits for the first of the two.
pub proof fn a_timed_wait_plays_the_margin_alone(
    capture_read_nanos: u64,
    handoff_started_nanos: u64,
    handoff_nanos: u64,
    playback_delay: i64,
    reserve_frames: i64,
    rate: u32,
)
    requires
        rate > 0,
        i64::MIN <= playback_delay - reserve_frames <= i64::MAX,
    ensures
        ({
            let target = handoff_target(
                capture_read_nanos,
                handoff_started_nanos,
                handoff_nanos,
                playback_delay,
                reserve_frames,
                rate,
            );
            let margin = playback_delay - reserve_frames;
            &&& target <= handoff_started_nanos + handoff_nanos
            &&& margin <= 0 ==> target <= capture_read_nanos
            &&& margin >= 0 ==> (target - capture_read_nanos) * rate <= margin * 1_000_000_000
            &&& 0 <= margin && margin * 1_000_000_000 <= u64::MAX && target
                < handoff_started_nanos + handoff_nanos && target < u64::MAX ==> margin
                * 1_000_000_000 < (target - capture_read_nanos + 1) * rate
            &&& margin <= 0 && target < handoff_started_nanos + handoff_nanos ==> target
                == capture_read_nanos
        }),
{
    let margin = playback_delay - reserve_frames;
    let spare = crate::arith::clamp_u64(crate::arith::clamp_i64(margin) as int);
    assert(spare == if margin < 0 { 0 } else { margin });
    a_duration_lasts_its_frames(spare, rate);
    let nanos = frames_nanos(spare, rate) as int;
    let divisor = rate as int;
    let target = handoff_target(
        capture_read_nanos,
        handoff_started_nanos,
        handoff_nanos,
        playback_delay,
        reserve_frames,
        rate,
    );
    assert(nanos >= 0);
    assert(target - capture_read_nanos <= nanos);
    assert((target - capture_read_nanos) * divisor <= nanos * divisor) by (nonlinear_arith)
        requires
            target - capture_read_nanos <= nanos,
            divisor > 0,
    ;
    if spare == 0 {
        assert(nanos == 0) by (nonlinear_arith)
            requires
                nanos * divisor <= 0,
                nanos >= 0,
                divisor > 0,
        ;
    }
}

/// A sleep before a playback target ends no later than `prewake_nanos` before the remaining frames
/// have drained, unless it is the shortest sleep that there is, and never earlier than that.
pub proof fn a_target_sleep_wakes_before_the_target(remaining: i64, rate: u32, prewake_nanos: u64)
    requires
        rate > 0,
        0 <= remaining,
        remaining * 1_000_000_000 <= u64::MAX,
    ensures
        ({
            let sleep = target_sleep(remaining, rate, prewake_nanos);
            &&& sleep >= 1_000
            &&& sleep > 1_000 ==> (sleep + prewake_nanos) * rate <= remaining * 1_000_000_000
            &&& remaining * 1_000_000_000 < (sleep + prewake_nanos + 1) * rate
        }),
{
    a_duration_lasts_its_frames(remaining as u64, rate);
    let nanos = frames_nanos(remaining as u64, rate) as int;
    let divisor = rate as int;
    let woken = target_sleep(remaining, rate, prewake_nanos) + prewake_nanos;
    assert(nanos <= woken);
    assert((nanos + 1) * divisor <= (woken + 1) * divisor) by (nonlinear_arith)
        requires
            nanos <= woken,
            divisor > 0,
    ;
}

/// A start is deep enough: a direct pair is primed with its periods (two where nothing else is
/// configured), a pair with lead with both periods, and a pair without lead with a period, the
/// guard and frames that last at least the handoff but no frame more; each only as far as the
/// buffer goes.
pub proof fn starts_are_as_deep_as_the_buffer_allows(
    period: i64,
    guard_frames: i64,
    hardware_period: i64,
    buffer: i64,
    rate: u32,
    handoff_nanos: u64,
    queue_periods: Option<u32>,
)
    requires
        0 <= period <= 0x1_0000_0000,
        0 <= guard_frames <= 0x1_0000_0000,
        0 <= hardware_period <= 0x1_0000_0000,
        handoff_nanos * rate <= u64::MAX,
    ensures
        ({
            let direct = direct_start(period, buffer, queue_periods);
            let wanted = match queue_periods {
                Some(periods) => period * periods,
                None => period * 2,
            };
            &&& wanted <= i64::MAX ==> direct == wanted || direct == buffer
            &&& direct <= buffer && (wanted <= i64::MAX ==> direct <= wanted)
        }),
        ({
            let ahead = ahead_start(period, hardware_period, buffer);
            &&& ahead == period + hardware_period || ahead == buffer
            &&& ahead <= buffer && ahead <= period + hardware_period
        }),
        ({
            let linked = linked_start(period, guard_frames, buffer, rate, handoff_nanos);
            let spent = linked - period - guard_frames;
            &&& linked <= buffer
            &&& linked < buffer ==> handoff_nanos * rate <= spent * 1_000_000_000
            &&& (spent - 1) * 1_000_000_000 < handoff_nanos * rate
        }),
{
    let product = handoff_nanos * rate;
    assert(product >= 0) by (nonlinear_arith)
        requires
            product == handoff_nanos * rate,
    ;
    if queue_periods is Some {
        let periods = queue_periods->0;
        assert(period * periods >= 0) by (nonlinear_arith)
            requires
                period >= 0,
        ;
    }
}

/// The floor of a pair without lead is the guard and three hardware periods, or what a write
/// leaves of the buffer where that is less.
pub proof fn the_floor_is_three_hardware_periods(
    guard_frames: i64,
    hardware_period: i64,
    buffer: i64,
    write_frames: i64,
)
    requires
        0 <= guard_frames <= 0x1_0000_0000,
        0 <= hardware_period <= 0x1_0000_0000,
        0 <= write_frames <= buffer,
    ensures
        ({
            let floor = zero_lead_floor(guard_frames, hardware_period, buffer, write_frames);
            let wanted = guard_frames + hardware_period + hardware_period + hardware_period;
            &&& floor <= wanted
            &&& floor + write_frames <= buffer
            &&& floor == wanted || floor + write_frames == buffer
        }),
{
}

/// A calibrated cycle leaves the handoff less an eighth of a hardware period, whatever the rate.
pub proof fn the_phase_target_leaves_an_eighth(
    hardware_period: i64,
    rate: u32,
    handoff_nanos: u64,
)
    requires
        rate > 0,
        1 <= hardware_period,
        hardware_period * 1_000_000_000 <= u64::MAX,
    ensures
        ({
            let target = phase_target(hardware_period, rate, handoff_nanos);
            let overhead = handoff_nanos - target;
            &&& 0 <= overhead
            &&& overhead * 8 * rate <= hardware_period * 1_000_000_000
            &&& target > 0 ==> hardware_period * 1_000_000_000 < (overhead + 1) * 8 * rate
        }),
{
    a_duration_lasts_its_frames(hardware_period as u64, rate);
    let nanos = frames_nanos(hardware_period as u64, rate) as int;
    let divisor = rate as int;
    let overhead = handoff_nanos - phase_target(hardware_period, rate, handoff_nanos);
    assert(at_least_one(hardware_period) == hardware_period as u64);
    assert(overhead <= nanos / 8);
    assert(overhead * 8 <= nanos);
    assert(overhead * 8 * divisor <= nanos * divisor) by (nonlinear_arith)
        requires
            overhead * 8 <= nanos,
            divisor > 0,
    ;
    if phase_target(hardware_period, rate, handoff_nanos) > 0 {
        assert(nanos + 1 <= (overhead + 1) * 8);
        assert((nanos + 1) * divisor <= (overhead + 1) * 8 * divisor) by (nonlinear_arith)
            requires
                nanos + 1 <= (overhead + 1) * 8,
                divisor > 0,
        ;
    }
}

/// A warmup is the fewest periods that last a second.
pub proof fn a_warmup_lasts_a_second(rate: u32, period: i64)
    requires
        period >= 1,
    ensures
        warmup_cycles(rate, period) * period >= rate,
        rate > 0 ==> (warmup_cycles(rate, period) - 1) * period < rate,
{
    let divisor = period as int;
    let raised = rate + divisor - 1;
    assert(at_least_one(period) == period);
    vstd::arithmetic::div_mod::lemma_fundamental_div_mod(raised, divisor);
    vstd::arithmetic::div_mod::lemma_mod_bound(raised, divisor);
    let cycles = raised / divisor;
    assert(0 <= cycles <= raised) by (nonlinear_arith)
        requires
            raised == divisor * cycles + raised % divisor,
            0 <= raised % divisor < divisor,
            raised >= 0,
            divisor >= 1,
    ;
    assert(cycles <= rate) by (nonlinear_arith)
        requires
            rate + divisor - 1 == divisor * cycles + raised % divisor,
            0 <= raised % divisor < divisor,
            divisor >= 1,
            cycles >= 0,
    ;
    assert(cycles * divisor >= rate && (cycles - 1) * divisor < rate) by (nonlinear_arith)
        requires
            rate + divisor - 1 == divisor * cycles + raised % divisor,
            0 <= raised % divisor < divisor,
    ;
}

/// Repeated starts fall on every part of the hardware period in turn.
pub proof fn the_dither_moves_on_by_one(attempt: u32, hardware_period: i64)
    requires
        1 <= hardware_period <= u32::MAX,
        attempt < u32::MAX,
    ensures
        ({
            let now = dither_frames(attempt, hardware_period);
            let next = dither_frames((attempt + 1) as u32, hardware_period);
            &&& dither_frames(0, hardware_period) == 0
            &&& next == now + 1 || (now == hardware_period - 1 && next == 0)
            &&& 0 <= next < hardware_period
        }),
{
    let modulus = hardware_period as int;
    let a = attempt as int;
    vstd::arithmetic::div_mod::lemma_fundamental_div_mod(a, modulus);
    vstd::arithmetic::div_mod::lemma_mod_bound(a, modulus);
    vstd::arithmetic::div_mod::lemma_mod_bound(a + 1, modulus);
    vstd::arithmetic::div_mod::lemma_small_mod(0, modulus as nat);
    let quotient = a / modulus;
    let rest = a % modulus;
    if rest + 1 < modulus {
        assert(a + 1 == quotient * modulus + (rest + 1)) by (nonlinear_arith)
            requires
                a == modulus * quotient + rest,
        ;
        vstd::arithmetic::div_mod::lemma_fundamental_div_mod_converse(
            a + 1,
            modulus,
            quotient,
            rest + 1,
        );
    } else {
        assert(modulus * (quotient + 1) == modulus * quotient + modulus) by (nonlinear_arith);
        vstd::arithmetic::div_mod::lemma_fundamental_div_mod_converse(
            a + 1,
            modulus,
            quotient + 1,
            0,
        );
    }
}

/// A clock reading is its seconds and its nanoseconds; a clock that cannot be read stands at zero.
pub proof fn a_clock_is_read_in_nanoseconds(timestamp: Option<Timespec>, nanos: u64)
    requires
        call_ensures(monotonic_nanos, (timestamp,), nanos),
    ensures
        timestamp is None ==> nanos == 0,
        timestamp matches Some(t) ==> {
            &&& t.tv_sec >= 0 && t.tv_nsec >= 0 && t.tv_sec * 1_000_000_000 + t.tv_nsec
                <= u64::MAX ==> nanos == t.tv_sec * 1_000_000_000 + t.tv_nsec
            &&& t.tv_sec >= 0 && t.tv_nsec >= 0 && t.tv_sec * 1_000_000_000 + t.tv_nsec
                > u64::MAX ==> nanos == u64::MAX
            &&& t.tv_sec < 0 && t.tv_nsec >= 0 ==> nanos == t.tv_nsec
        },
{
}

/// A duration is counted exactly as long as it can be.
pub proof fn a_duration_is_counted_as_far_as_it_goes(nanos: u128, bounded: u64)
    requires
        call_ensures(duration_nanos, (nanos,), bounded),
    ensures
        nanos <= u64::MAX ==> bounded == nanos,
        nanos > u64::MAX ==> bounded == u64::MAX,
{
}

/// The phase grows with the playback pointer and falls with the capture pointer. It stays the same
/// when either pointer is looked at later and has moved on by as much, and it changes its sign when
/// the directions change places.
pub proof fn the_phase_compares_the_pointers(
    playback_system: Timespec,
    playback_audio: Timespec,
    capture_system: Timespec,
    capture_audio: Timespec,
    phase: i64,
    swapped: i64,
)
    requires
        call_ensures(
            duplex_pointer_phase_from_timestamps,
            (playback_system, playback_audio, capture_system, capture_audio),
            phase,
        ),
        call_ensures(
            duplex_pointer_phase_from_timestamps,
            (capture_system, capture_audio, playback_system, playback_audio),
            swapped,
        ),
    ensures
        ({
            let playback = (playback_audio.tv_sec - playback_system.tv_sec) * 1_000_000_000 + (
            playback_audio.tv_nsec - playback_system.tv_nsec);
            let capture = (capture_audio.tv_sec - capture_system.tv_sec) * 1_000_000_000 + (
            capture_audio.tv_nsec - capture_system.tv_nsec);
            &&& i64::MIN <= playback - capture <= i64::MAX ==> phase == playback - capture
            &&& playback - capture > i64::MAX ==> phase == i64::MAX
            &&& playback - capture < i64::MIN ==> phase == i64::MIN
        }),
        phase > i64::MIN && swapped > i64::MIN ==> swapped == -phase,
{
}

} // verus!
