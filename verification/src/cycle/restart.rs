//! Starting, restarting and stopping the streams, as plans of device steps.
//!
//! A plan is a list of steps. The driver carries out one step after another and hands back what
//! came of it; the first failure ends the plan with a failure that names the step.
use vstd::prelude::*;
use crate::control::WorkerControl;
use crate::cycle::RunState;
use crate::error::{alsa_failure, DeviceFailure, EngineError, StreamDirection};
use crate::timeline::HardwareTimeline;

verus! {

/// Something to do with the streams.
#[derive(Clone, Copy, Debug, PartialEq, Eq, Structural)]
pub enum StreamOp {
    /// Go on only while the run is not ending.
    CheckRunning,
    Unlink,
    /// Link playback and capture.
    Link,
    Drop(StreamDirection),
    Prepare(StreamDirection),
    Start(StreamDirection),
    /// Start a stream unless it runs already.
    StartUnlessRunning(StreamDirection),
    /// Let the device recover from an error number.
    Recover { direction: StreamDirection, errno: i32 },
    /// Fill the playback queue with silence up to the start depth.
    Prime,
    /// Let some frames pass.
    Dither { frames: i64 },
    /// Qualify the loopback, where one is configured.
    Normalize,
}

/// A step and the name that its failure is reported under.
#[derive(Clone, Copy, Debug, PartialEq, Eq)]
pub struct StreamStep {
    pub op: StreamOp,
    pub operation: &'static str,
    pub direction: StreamDirection,
}

/// What came of a step.
#[derive(Debug)]
pub enum StepOutcome {
    /// A device call, or a step that cannot fail by itself.
    Device(Result<(), DeviceFailure>),
    /// Frames that were queued.
    Primed(Result<i64, EngineError>),
    /// A qualification.
    Qualified(Result<(), EngineError>),
}

/// What a step came to, as far as the plan is concerned.
pub open spec fn step_verdict(
    step: StreamStep,
    control: WorkerControl,
    start_frames: i64,
    outcome: StepOutcome,
) -> Result<(), EngineError> {
    match (step.op, outcome) {
        (StreamOp::CheckRunning, _) => if control.stopping() {
            Err(EngineError::Stopped)
        } else {
            Ok(())
        },
        (_, StepOutcome::Device(Ok(_))) => Ok(()),
        (_, StepOutcome::Device(Err(source))) => Err(
            crate::error::device_error(source, step.operation, step.direction),
        ),
        (_, StepOutcome::Primed(Ok(frames))) => if frames == start_frames {
            Ok(())
        } else {
            Err(
                EngineError::ShortCommit {
                    direction: StreamDirection::Playback,
                    actual: frames,
                    required: start_frames,
                },
            )
        },
        (_, StepOutcome::Primed(Err(error))) => Err(error),
        (_, StepOutcome::Qualified(result)) => result,
    }
}

pub fn judge_step(
    step: StreamStep,
    control: &WorkerControl,
    start_frames: i64,
    outcome: StepOutcome,
) -> (verdict: Result<(), EngineError>)
    ensures
        verdict == step_verdict(step, *control, start_frames, outcome),
{
    if let StreamOp::CheckRunning = step.op {
        return control.ensure_running();
    }
    match outcome {
        StepOutcome::Device(Ok(_)) => Ok(()),
        StepOutcome::Device(Err(source)) => Err(
            alsa_failure(source, step.operation, step.direction),
        ),
        StepOutcome::Primed(Ok(frames)) => if frames == start_frames {
            Ok(())
        } else {
            Err(
                EngineError::ShortCommit {
                    direction: StreamDirection::Playback,
                    actual: frames,
                    required: start_frames,
                },
            )
        },
        StepOutcome::Primed(Err(error)) => Err(error),
        StepOutcome::Qualified(result) => result,
    }
}

/// A plan under way.
#[derive(Debug)]
pub struct StreamPlan {
    steps: Vec<StreamStep>,
    next: usize,
    start_frames: i64,
    failure: Option<EngineError>,
}

impl StreamPlan {
    pub closed spec fn steps(&self) -> Seq<StreamStep> {
        self.steps@
    }

    /// How many steps succeeded.
    pub closed spec fn done(&self) -> nat {
        self.next as nat
    }

    pub closed spec fn start_frames(&self) -> i64 {
        self.start_frames
    }

    /// What ended the plan early.
    pub closed spec fn failure(&self) -> Option<EngineError> {
        self.failure
    }

    /// The steps done are a part of the plan.
    #[verifier::type_invariant]
    closed spec fn in_range(self) -> bool {
        self.next <= self.steps@.len()
    }

    pub fn new(steps: Vec<StreamStep>, start_frames: i64) -> (plan: Self)
        ensures
            plan.steps() == steps@,
            plan.done() == 0,
            plan.start_frames() == start_frames,
            plan.failure() is None,
    {
        StreamPlan { steps, next: 0, start_frames, failure: None }
    }

    /// The step to carry out next; none once the plan succeeded or failed.
    pub fn pending(&self) -> (step: Option<StreamStep>)
        ensures
            step == if self.failure() is Some || self.done() == self.steps().len() {
                None
            } else {
                Some(self.steps()[self.done() as int])
            },
            self.done() <= self.steps().len(),
    {
        proof {
            use_type_invariant(self);
        }
        if self.failure.is_some() || self.next == self.steps.len() {
            None
        } else {
            Some(self.steps[self.next])
        }
    }

    /// Accounts for the pending step: success moves on, failure ends the plan.
    pub fn report(&mut self, control: &WorkerControl, outcome: StepOutcome)
        requires
            old(self).failure() is None,
            old(self).done() < old(self).steps().len(),
        ensures
            final(self).steps() == old(self).steps(),
            final(self).start_frames() == old(self).start_frames(),
            match step_verdict(
                old(self).steps()[old(self).done() as int],
                *control,
                old(self).start_frames(),
                outcome,
            ) {
                Ok(_) => final(self).done() == old(self).done() + 1 && final(self).failure()
                    is None,
                Err(error) => final(self).done() == old(self).done() && final(self).failure()
                    == Some(error),
            },
    {
        proof {
            use_type_invariant(&*self);
        }
        match judge_step(self.steps[self.next], control, self.start_frames, outcome) {
            Ok(_) => {
                assert(self.next < self.steps.len());
                self.next = self.next + 1;
            },
            Err(error) => {
                self.failure = Some(error);
            },
        }
    }

    /// How the plan ended, once it has.
    pub fn result(&self) -> (result: Option<Result<(), EngineError>>)
        ensures
            result == match self.failure() {
                Some(error) => Some(Err::<(), EngineError>(error)),
                None => if self.done() == self.steps().len() {
                    Some(Ok::<(), EngineError>(()))
                } else {
                    None
                },
            },
    {
        match &self.failure {
            Some(error) => Some(Err(error.clone())),
            None => if self.next == self.steps.len() {
                Some(Ok(()))
            } else {
                None
            },
        }
    }
}

/// A check that the run is not ending.
pub open spec fn check_running() -> StreamStep {
    StreamStep {
        op: StreamOp::CheckRunning,
        operation: "check that the run goes on",
        direction: StreamDirection::Playback,
    }
}

/// The filling of the playback queue.
pub open spec fn prime_playback() -> StreamStep {
    StreamStep {
        op: StreamOp::Prime,
        operation: "prime playback",
        direction: StreamDirection::Playback,
    }
}

/// A device step on playback.
pub open spec fn on_playback(op: StreamOp, operation: &'static str) -> StreamStep {
    StreamStep { op, operation, direction: StreamDirection::Playback }
}

/// A device step on capture.
pub open spec fn on_capture(op: StreamOp, operation: &'static str) -> StreamStep {
    StreamStep { op, operation, direction: StreamDirection::Capture }
}

fn playback_step(op: StreamOp, operation: &'static str) -> (step: StreamStep)
    ensures
        step == on_playback(op, operation),
{
    StreamStep { op, operation, direction: StreamDirection::Playback }
}

fn capture_step(op: StreamOp, operation: &'static str) -> (step: StreamStep)
    ensures
        step == on_capture(op, operation),
{
    StreamStep { op, operation, direction: StreamDirection::Capture }
}

fn check_step() -> (step: StreamStep)
    ensures
        step == check_running(),
{
    StreamStep {
        op: StreamOp::CheckRunning,
        operation: "check that the run goes on",
        direction: StreamDirection::Playback,
    }
}

fn prime_step() -> (step: StreamStep)
    ensures
        step == prime_playback(),
{
    StreamStep {
        op: StreamOp::Prime,
        operation: "prime playback",
        direction: StreamDirection::Playback,
    }
}

/// The restart of a linked pair after a failure: both streams are stopped, the queue is filled
/// anew, both are started together and the loopback is qualified. The direct pair is linked before
/// it is prepared, any other right before the start.
pub open spec fn linked_recovery_steps(event_driven: bool, dither_frames: i64) -> Seq<StreamStep> {
    seq![
        check_running(),
        on_playback(StreamOp::Unlink, "unlink duplex streams after stream failure"),
        on_capture(
            StreamOp::Drop(StreamDirection::Capture),
            "stop capture stream after stream failure",
        ),
        on_playback(
            StreamOp::Drop(StreamDirection::Playback),
            "stop playback stream after stream failure",
        ),
    ] + (if event_driven {
        seq![
            on_playback(StreamOp::Link, "relink direct duplex streams after stream failure"),
            on_playback(
                StreamOp::Prepare(StreamDirection::Playback),
                "prepare direct linked streams after stream failure",
            ),
        ]
    } else {
        seq![
            on_capture(
                StreamOp::Prepare(StreamDirection::Capture),
                "prepare capture stream after stream failure",
            ),
            on_playback(
                StreamOp::Prepare(StreamDirection::Playback),
                "prepare playback stream after stream failure",
            ),
        ]
    }) + seq![check_running(), prime_playback(), check_running()] + (if event_driven {
        Seq::empty()
    } else {
        seq![on_playback(StreamOp::Link, "relink duplex streams after stream failure")]
    }) + seq![
        on_playback(StreamOp::Dither { frames: dither_frames }, "dither the restart"),
        check_running(),
        on_playback(
            StreamOp::Start(StreamDirection::Playback),
            "restart linked duplex streams after stream failure",
        ),
        on_playback(StreamOp::Normalize, "qualify the loopback"),
    ]
}

pub fn linked_recovery_plan(event_driven: bool, dither_frames: i64, start_frames: i64) -> (plan:
    StreamPlan)
    ensures
        plan.steps() == linked_recovery_steps(event_driven, dither_frames),
        plan.done() == 0,
        plan.start_frames() == start_frames,
        plan.failure() is None,
{
    let mut steps: Vec<StreamStep> = Vec::new();
    steps.push(check_step());
    steps.push(playback_step(StreamOp::Unlink, "unlink duplex streams after stream failure"));
    steps.push(
        capture_step(
            StreamOp::Drop(StreamDirection::Capture),
            "stop capture stream after stream failure",
        ),
    );
    steps.push(
        playback_step(
            StreamOp::Drop(StreamDirection::Playback),
            "stop playback stream after stream failure",
        ),
    );
    if event_driven {
        steps.push(
            playback_step(StreamOp::Link, "relink direct duplex streams after stream failure"),
        );
        steps.push(
            playback_step(
                StreamOp::Prepare(StreamDirection::Playback),
                "prepare direct linked streams after stream failure",
            ),
        );
    } else {
        steps.push(
            capture_step(
                StreamOp::Prepare(StreamDirection::Capture),
                "prepare capture stream after stream failure",
            ),
        );
        steps.push(
            playback_step(
                StreamOp::Prepare(StreamDirection::Playback),
                "prepare playback stream after stream failure",
            ),
        );
    }
    steps.push(check_step());
    steps.push(prime_step());
    steps.push(check_step());
    if !event_driven {
        steps.push(playback_step(StreamOp::Link, "relink duplex streams after stream failure"));
    }
    steps.push(playback_step(StreamOp::Dither { frames: dither_frames }, "dither the restart"));
    steps.push(check_step());
    steps.push(
        playback_step(
            StreamOp::Start(StreamDirection::Playback),
            "restart linked duplex streams after stream failure",
        ),
    );
    steps.push(playback_step(StreamOp::Normalize, "qualify the loopback"));
    assert(steps@ =~= linked_recovery_steps(event_driven, dither_frames));
    StreamPlan::new(steps, start_frames)
}

/// The restart of a linked pair that only moves its phase.
pub open spec fn linked_rebase_steps(dither_frames: i64) -> Seq<StreamStep> {
    seq![
        check_running(),
        on_playback(StreamOp::Unlink, "unlink duplex streams for phase rebase"),
        on_capture(
            StreamOp::Drop(StreamDirection::Capture),
            "stop capture stream for phase rebase",
        ),
        on_playback(
            StreamOp::Drop(StreamDirection::Playback),
            "stop playback stream for phase rebase",
        ),
        on_capture(
            StreamOp::Prepare(StreamDirection::Capture),
            "prepare capture stream for phase rebase",
        ),
        on_playback(
            StreamOp::Prepare(StreamDirection::Playback),
            "prepare playback stream for phase rebase",
        ),
        check_running(),
        prime_playback(),
        check_running(),
        on_playback(StreamOp::Link, "relink duplex streams for phase rebase"),
        on_playback(StreamOp::Dither { frames: dither_frames }, "dither the restart"),
        check_running(),
        on_playback(
            StreamOp::Start(StreamDirection::Playback),
            "restart linked duplex streams after phase rebase",
        ),
    ]
}

pub fn linked_rebase_plan(dither_frames: i64, start_frames: i64) -> (plan: StreamPlan)
    ensures
        plan.steps() == linked_rebase_steps(dither_frames),
        plan.done() == 0,
        plan.start_frames() == start_frames,
        plan.failure() is None,
{
    let mut steps: Vec<StreamStep> = Vec::new();
    steps.push(check_step());
    steps.push(playback_step(StreamOp::Unlink, "unlink duplex streams for phase rebase"));
    steps.push(
        capture_step(
            StreamOp::Drop(StreamDirection::Capture),
            "stop capture stream for phase rebase",
        ),
    );
    steps.push(
        playback_step(
            StreamOp::Drop(StreamDirection::Playback),
            "stop playback stream for phase rebase",
        ),
    );
    steps.push(
        capture_step(
            StreamOp::Prepare(StreamDirection::Capture),
            "prepare capture stream for phase rebase",
        ),
    );
    steps.push(
        playback_step(
            StreamOp::Prepare(StreamDirection::Playback),
            "prepare playback stream for phase rebase",
        ),
    );
    steps.push(check_step());
    steps.push(prime_step());
    steps.push(check_step());
    steps.push(playback_step(StreamOp::Link, "relink duplex streams for phase rebase"));
    steps.push(playback_step(StreamOp::Dither { frames: dither_frames }, "dither the restart"));
    steps.push(check_step());
    steps.push(
        playback_step(
            StreamOp::Start(StreamDirection::Playback),
            "restart linked duplex streams after phase rebase",
        ),
    );
    assert(steps@ =~= linked_rebase_steps(dither_frames));
    StreamPlan::new(steps, start_frames)
}

/// The recovery of a single stream by its device.
pub open spec fn stream_recovery_steps(direction: StreamDirection, errno: i32) -> Seq<StreamStep> {
    seq![
        check_running(),
        StreamStep {
            op: StreamOp::Recover { direction, errno },
            operation: "recover failed stream",
            direction,
        },
        check_running(),
    ]
}

pub fn stream_recovery_plan(direction: StreamDirection, errno: i32) -> (plan: StreamPlan)
    ensures
        plan.steps() == stream_recovery_steps(direction, errno),
        plan.done() == 0,
        plan.failure() is None,
{
    let mut steps: Vec<StreamStep> = Vec::new();
    steps.push(check_step());
    steps.push(
        StreamStep {
            op: StreamOp::Recover { direction, errno },
            operation: "recover failed stream",
            direction,
        },
    );
    steps.push(check_step());
    assert(steps@ =~= stream_recovery_steps(direction, errno));
    StreamPlan::new(steps, 0)
}

/// The restart of a single stream that does not run after its recovery; playback is primed first.
pub open spec fn stream_restart_steps(direction: StreamDirection) -> Seq<StreamStep> {
    (match direction {
        StreamDirection::Playback => seq![check_running(), prime_playback()],
        StreamDirection::Capture => Seq::empty(),
    }) + seq![
        check_running(),
        StreamStep {
            op: StreamOp::Start(direction),
            operation: "restart recovered stream",
            direction,
        },
    ]
}

pub fn stream_restart_plan(direction: StreamDirection, start_frames: i64) -> (plan: StreamPlan)
    ensures
        plan.steps() == stream_restart_steps(direction),
        plan.done() == 0,
        plan.start_frames() == start_frames,
        plan.failure() is None,
{
    let mut steps: Vec<StreamStep> = Vec::new();
    if let StreamDirection::Playback = direction {
        steps.push(check_step());
        steps.push(prime_step());
    }
    steps.push(check_step());
    steps.push(
        StreamStep {
            op: StreamOp::Start(direction),
            operation: "restart recovered stream",
            direction,
        },
    );
    assert(steps@ =~= stream_restart_steps(direction));
    StreamPlan::new(steps, start_frames)
}

/// The timeline after the XRUNs of a failed linked pair were counted: those of the directions that
/// are known to have failed, and of both where one failure stands for the pair.
pub open spec fn with_linked_xruns(
    timeline: HardwareTimeline,
    error: EngineError,
) -> HardwareTimeline {
    match error {
        EngineError::LinkedXrun { playback, capture, .. } => {
            let counted = if playback {
                timeline.with_xrun(StreamDirection::Playback)
            } else {
                timeline
            };
            if capture {
                counted.with_xrun(StreamDirection::Capture)
            } else {
                counted
            }
        },
        EngineError::Xrun { .. } => timeline.with_xrun(StreamDirection::Playback).with_xrun(
            StreamDirection::Capture,
        ),
        _ => timeline,
    }
}

pub fn record_linked_hardware_xruns(timeline: &mut HardwareTimeline, error: &EngineError)
    ensures
        *final(timeline) == with_linked_xruns(*old(timeline), *error),
        *error matches EngineError::LinkedXrun { playback, capture, .. } ==> {
            &&& final(timeline).playback_xruns == if playback {
                old(timeline).playback_xruns.wrapping_add(1)
            } else {
                old(timeline).playback_xruns
            }
            &&& final(timeline).capture_xruns == if capture {
                old(timeline).capture_xruns.wrapping_add(1)
            } else {
                old(timeline).capture_xruns
            }
        },
{
    match error {
        EngineError::LinkedXrun { playback, capture, .. } => {
            if *playback {
                timeline.record_hardware_xrun(StreamDirection::Playback);
            }
            if *capture {
                timeline.record_hardware_xrun(StreamDirection::Capture);
            }
        },
        EngineError::Xrun { .. } => {
            timeline.record_hardware_xrun(StreamDirection::Playback);
            timeline.record_hardware_xrun(StreamDirection::Capture);
        },
        _ => {},
    }
}

/// Begins the restart of a linked pair: its XRUNs are counted whether or not the restart works.
pub fn recover_linked_streams(
    state: &mut RunState,
    error: &EngineError,
    event_driven: bool,
    dither_frames: i64,
    start_frames: i64,
) -> (plan: StreamPlan)
    ensures
        *final(state) == old(state).with_timeline(
            with_linked_xruns(old(state).timeline, *error),
        ),
        plan.steps() == linked_recovery_steps(event_driven, dither_frames),
        plan.done() == 0,
        plan.start_frames() == start_frames,
        plan.failure() is None,
{
    record_linked_hardware_xruns(&mut state.timeline, error);
    linked_recovery_plan(event_driven, dither_frames, start_frames)
}

/// Begins the restart of a linked pair inside a cycle. Before the hardware was reported ready no
/// restart is made: it would skip the qualification of the start.
pub fn recover_linked_streams_during_cycle(
    state: &mut RunState,
    error: &EngineError,
    event_driven: bool,
    start_frames: i64,
) -> (result: Result<StreamPlan, EngineError>)
    ensures
        *final(state) == old(state).with_timeline(
            with_linked_xruns(old(state).timeline, *error),
        ),
        match result {
            Ok(plan) => {
                &&& old(state).control.hardware_ready != Some(false)
                &&& plan.steps() == linked_recovery_steps(event_driven, 0)
                &&& plan.done() == 0
                &&& plan.start_frames() == start_frames
                &&& plan.failure() is None
            },
            Err(refused) => {
                &&& old(state).control.hardware_ready == Some(false)
                &&& refused == EngineError::LinkedStartupInterrupted
            },
        },
{
    if let Some(ready) = state.control.hardware_ready {
        if !ready {
            record_linked_hardware_xruns(&mut state.timeline, error);
            return Err(EngineError::LinkedStartupInterrupted);
        }
    }
    Ok(recover_linked_streams(state, error, event_driven, 0, start_frames))
}

/// Publishes that a linked pair runs again.
pub fn linked_streams_recovered(timeline: &mut HardwareTimeline, error: &EngineError)
    ensures
        *final(timeline) == old(timeline).with_restart(),
{
    if error.is_xrun() {
        timeline.reset_after_hardware_xrun();
    } else {
        timeline.reset_after_hardware_restart();
    }
}

/// The error number that a stream is recovered from.
pub fn recovery_errno(error: &EngineError, broken_pipe: i32) -> (errno: i32)
    ensures
        errno == match error.device_errno() {
            Some(number) => number,
            None => broken_pipe,
        },
{
    match error.errno() {
        Some(number) => number,
        None => broken_pipe,
    }
}

/// Begins the recovery of a single stream: an XRUN is counted whether or not the recovery works.
pub fn recover_stream(
    state: &mut RunState,
    direction: StreamDirection,
    error: &EngineError,
    broken_pipe: i32,
) -> (plan: StreamPlan)
    ensures
        *final(state) == if error.xrun() {
            old(state).with_timeline(old(state).timeline.with_xrun(direction))
        } else {
            *old(state)
        },
        plan.steps() == stream_recovery_steps(
            direction,
            match error.device_errno() {
                Some(number) => number,
                None => broken_pipe,
            },
        ),
        plan.done() == 0,
        plan.failure() is None,
{
    let errno: i32 = recovery_errno(error, broken_pipe);
    if error.is_xrun() {
        state.timeline.record_hardware_xrun(direction);
    }
    stream_recovery_plan(direction, errno)
}

/// Publishes the recovery of a single stream: a new generation after an XRUN or a restart, and
/// none when the stream simply went on.
pub fn stream_recovered(timeline: &mut HardwareTimeline, error: &EngineError, restarted: bool)
    ensures
        *final(timeline) == if error.xrun() || restarted {
            old(timeline).with_restart()
        } else {
            *old(timeline)
        },
{
    if error.is_xrun() {
        timeline.reset_after_hardware_xrun();
    } else if restarted {
        timeline.reset_after_hardware_restart();
    }
}

/// A failed restart is counted but never published: counting the XRUNs of a failure leaves the
/// generation alone.
pub proof fn failed_recovery_publishes_no_generation(
    timeline: HardwareTimeline,
    error: EngineError,
)
    ensures
        with_linked_xruns(timeline, error).generation == timeline.generation,
        with_linked_xruns(timeline, error).timeline_resets == timeline.timeline_resets,
{
}

/// A suspended pair is restarted without any XRUN being counted.
pub proof fn suspension_is_no_xrun(timeline: HardwareTimeline, error: EngineError)
    requires
        error is Suspended,
    ensures
        with_linked_xruns(timeline, error) == timeline,
{
}

/// However the pair is restarted, the queue is filled before the start, the run is looked at right
/// before each of the two, and the start is the last step that touches the streams.
pub proof fn restarts_prime_before_they_start(event_driven: bool, dither_frames: i64)
    ensures
        ({
            let steps = linked_recovery_steps(event_driven, dither_frames);
            let n = steps.len() as int;
            &&& steps[n - 1].op == StreamOp::Normalize
            &&& steps[n - 2].op == StreamOp::Start(StreamDirection::Playback)
            &&& steps[n - 3].op == StreamOp::CheckRunning
            &&& steps[6].op == StreamOp::CheckRunning
            &&& steps[7].op == StreamOp::Prime
            &&& 7 < n - 2
        }),
        ({
            let steps = linked_rebase_steps(dither_frames);
            let n = steps.len() as int;
            &&& steps[n - 1].op == StreamOp::Start(StreamDirection::Playback)
            &&& steps[n - 2].op == StreamOp::CheckRunning
            &&& steps[7].op == StreamOp::Prime
        }),
{
}

/// An XRUN of a linked pair is counted for the direction that failed and for no other: the count
/// of a direction grows by one exactly when the failure says that it failed. Where one failure
/// stands for the pair, both counts grow by one. No other failure is counted, and nothing else is
/// reported differently.
pub proof fn an_xrun_is_counted_where_it_happened(timeline: HardwareTimeline, error: EngineError)
    ensures
        ({
            let now = with_linked_xruns(timeline, error);
            let playback_failed = match error {
                EngineError::LinkedXrun { playback, .. } => playback,
                EngineError::Xrun { .. } => true,
                _ => false,
            };
            let capture_failed = match error {
                EngineError::LinkedXrun { capture, .. } => capture,
                EngineError::Xrun { .. } => true,
                _ => false,
            };
            &&& playback_failed && timeline.playback_xruns < u64::MAX ==> now.playback_xruns
                == timeline.playback_xruns + 1
            &&& !playback_failed ==> now.playback_xruns == timeline.playback_xruns
            &&& capture_failed && timeline.capture_xruns < u64::MAX ==> now.capture_xruns
                == timeline.capture_xruns + 1
            &&& !capture_failed ==> now.capture_xruns == timeline.capture_xruns
            &&& now == HardwareTimeline {
                playback_xruns: now.playback_xruns,
                capture_xruns: now.capture_xruns,
                ..timeline
            }
        }),
{
}

/// The recovery of a linked pair is one new generation and one reset, whatever the failure was, and
/// counts each XRUN once: counting the failure and publishing the restart together move the
/// generation by one and the XRUN counts by what failed.
pub proof fn a_linked_recovery_is_one_generation(timeline: HardwareTimeline, error: EngineError)
    requires
        timeline.generation < u64::MAX,
        timeline.timeline_resets < u64::MAX,
        timeline.playback_xruns < u64::MAX,
        timeline.capture_xruns < u64::MAX,
    ensures
        ({
            let now = with_linked_xruns(timeline, error).with_restart();
            &&& now.generation == timeline.generation + 1
            &&& now.timeline_resets == timeline.timeline_resets + 1
            &&& error matches EngineError::LinkedXrun { playback, capture, .. } ==> {
                &&& (now.playback_xruns == timeline.playback_xruns + 1) == playback
                &&& (now.playback_xruns == timeline.playback_xruns) == !playback
                &&& (now.capture_xruns == timeline.capture_xruns + 1) == capture
                &&& (now.capture_xruns == timeline.capture_xruns) == !capture
            }
            &&& now.sample_position == timeline.sample_position
            &&& now.periods_processed == timeline.periods_processed
        }),
{
}

/// A restart of a pair takes the streams apart before it puts them together: they are unlinked and
/// both stopped before anything is prepared, the queue is filled after that, the pair is linked
/// again once, and nothing is started before the last step but one, or the last of a rebase. What
/// shifts the start is what was asked for.
pub proof fn a_restart_stops_both_before_it_prepares(event_driven: bool, dither_frames: i64)
    ensures
        ({
            let steps = linked_recovery_steps(event_driven, dither_frames);
            &&& steps[0].op == StreamOp::CheckRunning
            &&& steps[1].op == StreamOp::Unlink
            &&& steps[2].op == StreamOp::Drop(StreamDirection::Capture)
            &&& steps[3].op == StreamOp::Drop(StreamDirection::Playback)
            &&& event_driven ==> {
                &&& steps.len() == 13
                &&& steps[4].op == StreamOp::Link
                &&& steps[5].op == StreamOp::Prepare(StreamDirection::Playback)
                &&& steps[7].op == StreamOp::Prime
                &&& steps[9].op == StreamOp::Dither { frames: dither_frames }
                &&& steps[11].op == StreamOp::Start(StreamDirection::Playback)
            }
            &&& !event_driven ==> {
                &&& steps.len() == 14
                &&& steps[4].op == StreamOp::Prepare(StreamDirection::Capture)
                &&& steps[5].op == StreamOp::Prepare(StreamDirection::Playback)
                &&& steps[7].op == StreamOp::Prime
                &&& steps[9].op == StreamOp::Link
                &&& steps[10].op == StreamOp::Dither { frames: dither_frames }
                &&& steps[12].op == StreamOp::Start(StreamDirection::Playback)
            }
        }),
        ({
            let steps = linked_rebase_steps(dither_frames);
            &&& steps.len() == 13
            &&& steps[1].op == StreamOp::Unlink
            &&& steps[2].op == StreamOp::Drop(StreamDirection::Capture)
            &&& steps[3].op == StreamOp::Drop(StreamDirection::Playback)
            &&& steps[4].op == StreamOp::Prepare(StreamDirection::Capture)
            &&& steps[5].op == StreamOp::Prepare(StreamDirection::Playback)
            &&& steps[7].op == StreamOp::Prime
            &&& steps[9].op == StreamOp::Link
            &&& steps[10].op == StreamOp::Dither { frames: dither_frames }
            &&& steps[12].op == StreamOp::Start(StreamDirection::Playback)
        }),
{
}

/// A single stream is recovered and restarted by itself: every step concerns its own direction, the
/// device is asked to recover from the very error, and playback is filled before it is started.
pub proof fn a_stream_is_recovered_by_itself(direction: StreamDirection, errno: i32)
    ensures
        ({
            let steps = stream_recovery_steps(direction, errno);
            &&& steps.len() == 3
            &&& steps[0].op == StreamOp::CheckRunning
            &&& steps[1].op == StreamOp::Recover { direction, errno }
            &&& steps[1].direction == direction
            &&& steps[2].op == StreamOp::CheckRunning
        }),
        ({
            let steps = stream_restart_steps(direction);
            let last = steps.len() - 1;
            &&& steps[last].op == StreamOp::Start(direction)
            &&& steps[last].direction == direction
            &&& steps[last - 1].op == StreamOp::CheckRunning
            &&& direction == StreamDirection::Playback ==> steps.len() == 4 && steps[1].op
                == StreamOp::Prime
            &&& direction == StreamDirection::Capture ==> steps.len() == 2
        }),
{
}

/// A step fails with what the device failed with, under its own name and direction: it succeeds
/// exactly where the device did, a queue counts as filled only at the whole depth, and a check of
/// the run fails exactly where the run is ending.
pub proof fn a_step_fails_with_its_own_failure(
    step: StreamStep,
    control: WorkerControl,
    start_frames: i64,
    frames: i64,
    source: DeviceFailure,
)
    ensures
        step.op == StreamOp::CheckRunning ==> {
            let verdict = step_verdict(step, control, start_frames, StepOutcome::Device(Ok(())));
            &&& control.stop || control.done ==> verdict == Err::<(), EngineError>(
                EngineError::Stopped,
            )
            &&& !control.stop && !control.done ==> verdict is Ok
        },
        step.op != StreamOp::CheckRunning ==> {
            let done = step_verdict(step, control, start_frames, StepOutcome::Device(Ok(())));
            let failed = step_verdict(
                step,
                control,
                start_frames,
                StepOutcome::Device(Err(source)),
            );
            let primed = step_verdict(
                step,
                control,
                start_frames,
                StepOutcome::Primed(Ok(frames)),
            );
            &&& done is Ok
            &&& failed matches Err(error)
            &&& error matches EngineError::Xrun { operation, direction, source: cause }
                ==> operation == step.operation && direction == step.direction && cause == source
            &&& error matches EngineError::Alsa { operation, direction, source: cause }
                ==> operation == step.operation && direction == step.direction && cause == source
            &&& primed is Ok <==> frames == start_frames
            &&& frames != start_frames ==> primed == Err::<(), EngineError>(
                EngineError::ShortCommit {
                    direction: StreamDirection::Playback,
                    actual: frames,
                    required: start_frames,
                },
            )
        },
{
}

} // verus!
