//! The audio cycles as state machines.
//!
//! A cycle is driven from outside: its phase names the one thing to do next, the driver does it and
//! hands the outcome back as an event. Between two events a cycle decides everything: what is
//! counted, which failure ends the run, which one restarts the streams, and which period is next.
pub mod ahead;
pub mod calibration;
pub mod capture;
pub mod linked;
pub mod packet;
pub mod playback;
pub mod restart;

use vstd::prelude::*;
use crate::control::WorkerControl;
use crate::error::EngineError;
use crate::timeline::HardwareTimeline;
use crate::timing::DirectDuplexReadiness;

verus! {

/// What the workers of a run share.
#[derive(Clone, Copy, Debug)]
pub struct RunState {
    pub control: WorkerControl,
    pub timeline: HardwareTimeline,
}

impl RunState {
    /// The state after the run was ended.
    pub open spec fn ended(self) -> RunState {
        RunState { control: self.control.ended(), timeline: self.timeline }
    }

    /// The state with another timeline.
    pub open spec fn with_timeline(self, timeline: HardwareTimeline) -> RunState {
        RunState { control: self.control, timeline }
    }

    /// The state after one period went through in both directions.
    pub open spec fn with_period_done(self, frames: u64) -> RunState {
        let timeline = self.timeline.with_processed(frames, 1);
        RunState { control: self.control.with_hardware_ready(timeline.generation), timeline }
    }

    /// The state after capture handed on its period.
    pub open spec fn with_capture_delivered(self) -> RunState {
        RunState {
            control: self.control.with_capture_ready(self.timeline.generation),
            timeline: self.timeline,
        }
    }

    pub fn end(&mut self)
        ensures
            *final(self) == old(self).ended(),
    {
        self.control.done = true;
    }

    pub fn period_done(&mut self, frames: u64)
        ensures
            *final(self) == old(self).with_period_done(frames),
    {
        self.timeline.processed_frames(frames, 1);
        self.control.publish_hardware_ready(self.timeline.generation());
    }

    pub fn capture_delivered(&mut self)
        ensures
            *final(self) == old(self).with_capture_delivered(),
    {
        self.control.mark_capture_cycle_ready(self.timeline.generation());
    }
}

/// Geometry and budgets of a linked duplex pair.
#[derive(Clone, Copy, Debug, PartialEq, Eq, Structural)]
pub struct LinkedProConfig {
    pub playback_channels: usize,
    pub capture_channels: usize,
    pub playback_period_samples: usize,
    pub capture_period_samples: usize,
    pub start_samples: usize,
    pub start_frames: i64,
    pub period: i64,
    pub buffer: i64,
    pub hardware_period: i64,
    pub playback_floor: i64,
    pub phase_max_attempts: u32,
    pub rate: u32,
    pub handoff_nanos: u64,
    pub sequence_lead: u64,
    pub event_driven: bool,
    /// How many periods to process; no limit when absent.
    pub max_periods: Option<u64>,
}

impl LinkedProConfig {
    /// Periods and rate are positive.
    pub open spec fn wf(self) -> bool {
        &&& self.period > 0
        &&& self.hardware_period > 0
        &&& self.rate > 0
    }
}

/// What a playback stream said about itself.
#[derive(Clone, Copy, Debug, PartialEq, Eq, Structural)]
pub struct PlaybackStatus {
    pub delay: i64,
    pub available: i64,
}

/// What was seen right after a capture period was read.
#[derive(Clone, Copy, Debug, PartialEq, Eq, Structural)]
pub struct CaptureObservation {
    pub nanos: u64,
    pub capture_delay: Option<i64>,
    pub playback_delay: Option<i64>,
    pub pointer_phase: Option<i64>,
}

/// A captured period whose client has until `target_nanos` to answer.
#[derive(Clone, Copy, Debug, PartialEq, Eq, Structural)]
pub struct PendingProCapture {
    pub hardware_sequence: u64,
    pub playback_sequence: u64,
    pub target_nanos: u64,
}

/// What a cycle asks its driver to do.
#[derive(Clone, Copy, Debug, PartialEq, Eq, Structural)]
pub enum CycleAction {
    /// Wait until both directions have a period; answer with `DuplexReady`.
    WaitDuplexPeriod,
    /// Wait until playback has drained to the floor; answer with `Waited`.
    WaitPlaybackTarget,
    /// Wait until the playback device takes data; answer with `Waited`.
    WaitTransfer,
    /// Wait until the clock reads `target_nanos`; answer with `Waited`.
    WaitHandoff { target_nanos: u64 },
    /// Let the source wait for its client, telling it when nothing is left of the budget; answer
    /// with `Called`.
    WaitForClient { sequence: u64, cutoff_nanos: u64, exhausted: bool },
    /// Read `samples` samples to `offset` of the capture block; answer with `Captured`.
    ReadCapture { offset: usize, samples: usize },
    /// Look at the clock and at the streams; answer with `CaptureObserved`.
    ObserveCapture,
    /// Look at the clock; answer with `Clock`.
    ReadClock,
    /// Look at the playback stream; answer with `Status`.
    ReadPlaybackStatus,
    /// Ask the source for its epoch; answer with `Epoch`.
    ReadEpoch,
    /// Look at the sequence that playback published; answer with `ProTarget`.
    ReadProTarget,
    /// Publish the sequence that capture is to aim at; answer with `Called`.
    PublishProTarget { sequence: u64 },
    PreparePlayback { sequence: u64 },
    PreparePlaybackMix { sequence: u64 },
    /// Silence the playback block.
    ClearPlayback,
    /// Hand the capture block to the sink.
    ProcessCapture { hardware_sequence: u64, playback_sequence: u64 },
    ProcessDeferredCapture { hardware_sequence: u64 },
    /// Keep the source's output from being taken away.
    BeginCommit,
    /// Let the source fill the playback block.
    ProcessPlayback { sequence: u64, cutoff_nanos: Option<u64> },
    CommitPlayback { sequence: u64 },
    /// End what `BeginCommit` began.
    EndCommit,
    /// End what `BeginCommit` began, whatever the source does.
    ReleaseCommit,
    /// Write `samples` samples from `offset` of the playback block; answer with `Written`.
    WritePlayback { offset: usize, samples: usize },
    /// Ask the playback stream for its delay; answer with `Delay`.
    ReadPlaybackDelay,
    /// Write `samples` samples of silence; answer with `Written`.
    WriteSilence { samples: usize },
    /// Restart the streams after the failure that the phase holds; answer with `Recovered`.
    Recover,
    /// The same, shifted by some frames.
    RecoverShifted { dither_frames: i64 },
    /// Restart the streams shifted by some frames; answer with `Recovered`.
    Rebase { dither_frames: i64 },
    /// The run is over.
    Finish,
}

/// What came of an action.
#[derive(Debug)]
pub enum CycleEvent {
    DuplexReady(Result<DirectDuplexReadiness, EngineError>),
    Waited(Result<(), EngineError>),
    Captured(Result<i64, EngineError>),
    CaptureObserved(CaptureObservation),
    Clock { nanos: u64 },
    Status(Option<PlaybackStatus>),
    Delay(Result<i64, EngineError>),
    /// The epoch of the source, unless asking for it panicked.
    Epoch(Option<u64>),
    ProTarget { sequence: u64 },
    Called { panicked: bool },
    /// A write that took `write_nanos`.
    Written { result: Result<i64, EngineError>, write_nanos: u64 },
    Recovered(Result<(), EngineError>),
}

/// Samples in `frames` frames, if they can be counted.
pub open spec fn samples_in(frames: i64, channels: usize) -> Option<usize> {
    if frames >= 0 && frames <= usize::MAX && frames * channels <= usize::MAX {
        Some((frames * channels) as usize)
    } else {
        None
    }
}

pub fn frame_samples(frames: i64, channels: usize) -> (samples: Option<usize>)
    ensures
        samples == samples_in(frames, channels),
{
    if frames < 0 || frames as u128 > usize::MAX as u128 {
        return None;
    }
    (frames as usize).checked_mul(channels)
}

/// The limit on processed periods has been reached.
pub open spec fn limit_reached(periods: u64, max_periods: Option<u64>) -> bool {
    max_periods is Some && periods >= max_periods->0
}

pub fn period_limit_reached(successful_periods: u64, max_periods: Option<u64>) -> (reached: bool)
    ensures
        reached == limit_reached(successful_periods, max_periods),
{
    match max_periods {
        Some(limit) => successful_periods >= limit,
        None => false,
    }
}

/// A capture that is due for `playback_sequence`.
pub open spec fn due_capture(
    pending: Option<PendingProCapture>,
    playback_sequence: u64,
) -> Option<PendingProCapture> {
    if pending is Some && pending->0.playback_sequence == playback_sequence {
        pending
    } else {
        None
    }
}

/// Takes the pending capture if it is the one for exactly `playback_sequence`.
pub fn take_pending_pro_capture(
    pending: &mut Option<PendingProCapture>,
    playback_sequence: u64,
) -> (due: Option<PendingProCapture>)
    ensures
        due == due_capture(*old(pending), playback_sequence),
        *final(pending) == if due is Some {
            None
        } else {
            *old(pending)
        },
{
    if let Some(capture) = *pending {
        if capture.playback_sequence == playback_sequence {
            *pending = None;
            return Some(capture);
        }
    }
    None
}

/// The timeline after a handoff budget was set at `now`: with nothing left of it the engine itself
/// missed the deadline.
pub open spec fn with_handoff_budget(
    timeline: HardwareTimeline,
    target_nanos: u64,
    now: u64,
) -> HardwareTimeline {
    let budget = crate::arith::clamp_u64(target_nanos - now);
    let granted = timeline.with_wait_budget(budget);
    if budget == 0 {
        granted.with_core_miss()
    } else {
        granted
    }
}

/// Accounts for the handoff budget and says whether there is anything to wait for.
pub fn grant_handoff_budget(timeline: &mut HardwareTimeline, target_nanos: u64, now: u64) -> (wait:
    bool)
    ensures
        *final(timeline) == with_handoff_budget(*old(timeline), target_nanos, now),
        wait == (now < target_nanos),
{
    let budget: u64 = target_nanos.saturating_sub(now);
    timeline.record_pro_wait_budget(budget);
    if budget == 0 {
        timeline.record_pro_core_deadline_miss();
        return false;
    }
    true
}

/// What to do while waiting for playback to drain.
#[derive(Clone, Copy, Debug, PartialEq, Eq, Structural)]
pub enum TargetStep {
    /// Stop waiting: the run is ending, or the target is reached.
    Done,
    /// Look again after this time.
    Sleep { nanos: u64 },
}

/// Decides on the wait for playback to drain to `guard_frames`, when `available` frames are free.
pub fn playback_target_step(
    state: &mut RunState,
    available: i64,
    buffer: i64,
    guard_frames: i64,
    rate: u32,
    prewake_nanos: u64,
) -> (step: TargetStep)
    requires
        rate > 0,
        0 <= guard_frames,
        0 <= buffer,
        0 <= available,
        available - (buffer - guard_frames) <= i64::MAX,
    ensures
        ({
            let target = buffer - guard_frames;
            if old(state).control.stopping() {
                step == TargetStep::Done && *final(state) == *old(state)
            } else if available >= target {
                &&& step == TargetStep::Done
                &&& *final(state) == old(state).with_timeline(
                    old(state).timeline.with_target_overshoot((available - target) as u64),
                )
            } else {
                &&& step == TargetStep::Sleep {
                    nanos: crate::timing::target_sleep(
                        (target - available) as i64,
                        rate,
                        prewake_nanos,
                    ),
                }
                &&& *final(state) == *old(state)
            }
        }),
{
    if state.control.should_stop() {
        return TargetStep::Done;
    }
    let target: i64 = buffer - guard_frames;
    if available >= target {
        state.timeline.record_playback_target_overshoot((available - target) as u64);
        return TargetStep::Done;
    }
    TargetStep::Sleep {
        nanos: crate::timing::playback_target_sleep(target - available, rate, prewake_nanos),
    }
}

/// What to do while waiting for the handoff.
pub fn handoff_wait_step(state: &RunState, target_nanos: u64, now: u64) -> (step: Result<
    TargetStep,
    EngineError,
>)
    ensures
        step == if state.control.stopping() {
            Err::<TargetStep, EngineError>(EngineError::Stopped)
        } else if now >= target_nanos {
            Ok::<TargetStep, EngineError>(TargetStep::Done)
        } else {
            Ok::<TargetStep, EngineError>(
                TargetStep::Sleep { nanos: (target_nanos - now) as u64 },
            )
        },
{
    if state.control.should_stop() {
        return Err(EngineError::Stopped);
    }
    if now >= target_nanos {
        Ok(TargetStep::Done)
    } else {
        Ok(TargetStep::Sleep { nanos: target_nanos - now })
    }
}

/// The handoff target is consumed only by its exact playback sequence: any other sequence leaves
/// it pending.
pub proof fn handoff_is_consumed_by_its_sequence_alone(
    capture: PendingProCapture,
    playback_sequence: u64,
)
    ensures
        due_capture(Some(capture), playback_sequence) == if capture.playback_sequence
            == playback_sequence {
            Some(capture)
        } else {
            None
        },
        due_capture(None, playback_sequence) is None,
{
}

/// The sequence that playback will play next, as capture sees it.
#[derive(Clone, Copy, Debug, PartialEq, Eq, Structural)]
pub struct ProClock {
    pub sequence: u64,
}

impl ProClock {
    pub fn new(sequence: u64) -> (clock: Self)
        ensures
            clock.sequence == sequence,
    {
        ProClock { sequence }
    }

    pub fn load(&self) -> (sequence: u64)
        ensures
            sequence == self.sequence,
    {
        self.sequence
    }

    pub fn publish(&mut self, sequence: u64)
        ensures
            final(self).sequence == sequence,
    {
        self.sequence = sequence;
    }
}

/// The hardware generation and the sequence that a captured period is aligned to.
pub fn observe_pro_capture_target(timeline: &HardwareTimeline, clock: &ProClock) -> (target: (
    u64,
    u64,
))
    ensures
        target == (timeline.generation, clock.sequence),
{
    (timeline.generation(), clock.load())
}

/// An action went well: it was answered without a failure, and moved `frames` frames where it was
/// asked to move frames.
pub open spec fn went_well(action: CycleAction, event: CycleEvent, frames: i64) -> bool {
    match action {
        CycleAction::WaitDuplexPeriod => event matches CycleEvent::DuplexReady(Ok(_)),
        CycleAction::WaitPlaybackTarget => event matches CycleEvent::Waited(Ok(_)),
        CycleAction::WaitTransfer => event matches CycleEvent::Waited(Ok(_)),
        CycleAction::WaitHandoff { .. } => event matches CycleEvent::Waited(Ok(_)),
        CycleAction::ReadCapture { .. } => event matches CycleEvent::Captured(Ok(read)) && read
            == frames,
        CycleAction::ObserveCapture => event is CaptureObserved,
        CycleAction::ReadClock => event is Clock,
        CycleAction::ReadPlaybackStatus => event is Status,
        CycleAction::ReadEpoch => event matches CycleEvent::Epoch(Some(_)),
        CycleAction::ReadProTarget => event is ProTarget,
        CycleAction::WritePlayback { .. } => event matches CycleEvent::Written {
            result: Ok(written),
            ..
        } && written == frames,
        CycleAction::WriteSilence { .. } => event matches CycleEvent::Written {
            result: Ok(written),
            ..
        } && written == frames,
        CycleAction::ReadPlaybackDelay => event matches CycleEvent::Delay(Ok(_)),
        CycleAction::Recover => event matches CycleEvent::Recovered(Ok(_)),
        CycleAction::RecoverShifted { .. } => event matches CycleEvent::Recovered(Ok(_)),
        CycleAction::Rebase { .. } => event matches CycleEvent::Recovered(Ok(_)),
        _ => event matches CycleEvent::Called { panicked } && !panicked,
    }
}

/// Between two steps of a cycle nobody asked the run to stop, processed a period or moved the
/// sample position. Anything else may have been recorded.
pub open spec fn undisturbed(left: RunState, found: RunState) -> bool {
    &&& found.control.stop == left.control.stop
    &&& found.control.done == left.control.done
    &&& found.timeline.generation == left.timeline.generation
    &&& found.timeline.periods_processed == left.timeline.periods_processed
    &&& found.timeline.sample_position == left.timeline.sample_position
}

/// How far a counter stands that wraps at its largest value, from `start` on.
pub open spec fn counted(start: u64, by: int) -> int {
    (start + by) % 0x1_0000_0000_0000_0000
}

/// The state after `periods` periods of `frames` frames went through since `start`.
pub open spec fn has_processed(start: RunState, now: RunState, periods: int, frames: i64) -> bool {
    &&& now.timeline.periods_processed == counted(start.timeline.periods_processed, periods)
    &&& now.timeline.sample_position == counted(
        start.timeline.sample_position,
        periods * (frames as int),
    )
}

/// One more period is one more period, and its frames are added.
pub(crate) proof fn lemma_one_more_period(
    start: RunState,
    before: RunState,
    after: RunState,
    periods: int,
    frames: i64,
)
    requires
        has_processed(start, before, periods, frames),
        frames >= 0,
        after.timeline.periods_processed == before.timeline.periods_processed.wrapping_add(1),
        after.timeline.sample_position == before.timeline.sample_position.wrapping_add(
            frames as u64,
        ),
    ensures
        has_processed(start, after, periods + 1, frames),
{
    lemma_counted_on(
        start.timeline.periods_processed,
        periods,
        before.timeline.periods_processed,
        1,
    );
    lemma_counted_on(
        start.timeline.sample_position,
        periods * (frames as int),
        before.timeline.sample_position,
        frames as u64,
    );
    assert((periods + 1) * (frames as int) == periods * (frames as int) + frames)
        by (nonlinear_arith);
}

proof fn lemma_counted_on(start: u64, by: int, now: u64, more: u64)
    requires
        now == counted(start, by),
    ensures
        now.wrapping_add(more) == counted(start, by + more),
{
    let m = 0x1_0000_0000_0000_0000int;
    let q = (start + by) / m;
    vstd::arithmetic::div_mod::lemma_fundamental_div_mod(start + by, m);
    if now + more >= m {
        vstd::arithmetic::div_mod::lemma_fundamental_div_mod_converse(
            start + by + more,
            m,
            q + 1,
            now + more - m,
        );
    } else {
        vstd::arithmetic::div_mod::lemma_fundamental_div_mod_converse(
            start + by + more,
            m,
            q,
            now + more,
        );
    }
}

/// A processed period moves the run by its frames and by one period, reports nothing else, and
/// makes the hardware ready only where capture was delivered in the same generation.
pub proof fn a_period_moves_the_run_by_its_frames(state: RunState, frames: u64)
    requires
        state.timeline.sample_position + frames <= u64::MAX,
        state.timeline.periods_processed < u64::MAX,
    ensures
        ({
            let after = state.with_period_done(frames);
            &&& after.timeline.sample_position == state.timeline.sample_position + frames
            &&& after.timeline.periods_processed == state.timeline.periods_processed + 1
            &&& after.timeline == HardwareTimeline {
                sample_position: after.timeline.sample_position,
                periods_processed: after.timeline.periods_processed,
                ..state.timeline
            }
            &&& after.control.stop == state.control.stop
            &&& after.control.done == state.control.done
            &&& after.control.hardware_ready != state.control.hardware_ready ==> {
                &&& state.control.hardware_ready == Some(false)
                &&& after.control.hardware_ready == Some(true)
                &&& state.control.capture_cycle_generation == Some(state.timeline.generation)
                &&& !state.control.stop && !state.control.done
            }
        }),
        ({
            let ready = state.with_capture_delivered().with_period_done(frames);
            state.control.hardware_ready == Some(false) && state.control.capture_cycle_generation
                is Some && !state.control.stop && !state.control.done
                ==> ready.control.hardware_ready == Some(true)
        }),
        state.with_capture_delivered().timeline == state.timeline,
        state.ended().timeline == state.timeline,
        state.ended().control.done,
        state.ended().control.stop == state.control.stop,
{
}

/// The budget of a handoff is what is left of it: it is reported within the extremes of all
/// budgets, and an engine that comes too late is the one that missed the deadline, once.
pub proof fn a_spent_budget_is_a_core_miss(
    timeline: HardwareTimeline,
    target_nanos: u64,
    now: u64,
)
    requires
        timeline.pro_deadline_misses < u64::MAX,
        timeline.pro_core_deadline_misses < u64::MAX,
        target_nanos < u64::MAX,
    ensures
        ({
            let after = with_handoff_budget(timeline, target_nanos, now);
            let missed: int = if now >= target_nanos {
                1
            } else {
                0
            };
            let budget = if now >= target_nanos {
                0
            } else {
                target_nanos - now
            };
            &&& after.pro_core_deadline_misses == timeline.pro_core_deadline_misses + missed
            &&& after.pro_deadline_misses == timeline.pro_deadline_misses + missed
            &&& after.pro_client_deadline_misses == timeline.pro_client_deadline_misses
            &&& after.stats().pro_wait_budget_min_nanos <= budget
            &&& after.stats().pro_wait_budget_max_nanos >= budget
            &&& timeline.pro_wait_budget_min_nanos == 0
                ==> after.stats().pro_wait_budget_min_nanos == budget
            &&& timeline.pro_wait_budget_max_nanos == 0
                ==> after.stats().pro_wait_budget_max_nanos == budget
            &&& crate::timeline::same_hardware_history(timeline, after)
        }),
{
}

/// A limit on the periods is reached with its last period and not before, and without a limit
/// never. Samples are counted as frames times channels.
pub proof fn limits_and_samples_are_counted(
    periods: u64,
    limit: u64,
    frames: i64,
    channels: usize,
)
    ensures
        limit_reached(periods, Some(limit)) <==> periods >= limit,
        !limit_reached(periods, None),
        samples_in(frames, channels) matches Some(samples) ==> frames >= 0 && samples == frames
            * channels,
        samples_in(frames, channels) is None ==> frames < 0 || frames > usize::MAX || frames
            * channels > usize::MAX,
{
}

} // verus!
