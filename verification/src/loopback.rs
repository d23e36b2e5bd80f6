//! Qualifying a digital loopback at startup.
//!
//! Quiet, distinct markers are played at known frames and looked for in the capture stream. Three
//! markers that come back after the same number of frames give the loopback delay; playback is
//! then padded to the configured delay, and a second set of markers must confirm it.
use vstd::prelude::*;
use crate::error::EngineError;

verus! {

/// Number of markers in one set.
pub const MARKER_COUNT: usize = 3;

/// Descriptors that one poll can take.
pub const MAX_POLL_DESCRIPTORS: usize = 32;

/// What is looked for and what has been found.
#[derive(Clone, Copy, Debug, PartialEq, Eq)]
pub struct StartupLoopbackProbe {
    pub markers: [i32; 3],
    pub interval: u64,
    pub delays: [Option<u64>; 3],
}

/// What has been found, as a value.
#[verifier::ext_equal]
pub struct Findings {
    pub delays: Seq<Option<u64>>,
    pub failure: Option<EngineError>,
}

/// The frame at which marker `index` is played.
pub open spec fn marker_frame(interval: u64, index: int) -> int {
    (index + 1) * interval
}

/// The sample that a probe plays at a frame: the marker of that frame, and silence elsewhere.
pub open spec fn probe_sample(markers: Seq<i32>, interval: u64, frame: int) -> i32 {
    if frame == marker_frame(interval, 2) {
        markers[2]
    } else if frame == marker_frame(interval, 1) {
        markers[1]
    } else if frame == marker_frame(interval, 0) {
        markers[0]
    } else {
        0
    }
}

/// The marker that a sample is, if it is one.
pub open spec fn marker_of(markers: Seq<i32>, sample: i32) -> Option<int> {
    if sample == markers[0] {
        Some(0int)
    } else if sample == markers[1] {
        Some(1int)
    } else if sample == markers[2] {
        Some(2int)
    } else {
        None
    }
}

/// What is known after looking at one captured sample at `position`, when playback has been
/// committed up to `output_end`. Markers that cannot have been played yet are not looked at.
pub open spec fn observe_sample(
    markers: Seq<i32>,
    interval: u64,
    output_end: u64,
    position: int,
    sample: i32,
    known: Findings,
) -> Findings {
    if known.failure is Some {
        known
    } else {
        match marker_of(markers, sample) {
            None => known,
            Some(index) => if marker_frame(interval, index) >= output_end {
                known
            } else if position < marker_frame(interval, index) {
                Findings {
                    delays: known.delays,
                    failure: Some(
                        EngineError::StartupLoopback(
                            "probe arrived before its logical output frame",
                        ),
                    ),
                }
            } else {
                Findings {
                    delays: known.delays.update(
                        index,
                        Some((position - marker_frame(interval, index)) as u64),
                    ),
                    failure: if known.delays[index] is Some {
                        Some(EngineError::StartupLoopback("ambiguous repeated probe"))
                    } else {
                        None
                    },
                }
            },
        }
    }
}

/// What is known after looking at the first `frames` frames of a captured block.
pub open spec fn observe_block(
    markers: Seq<i32>,
    interval: u64,
    output_end: u64,
    position: u64,
    mapped: Seq<i32>,
    channels: int,
    channel: int,
    frames: int,
    known: Findings,
) -> Findings
    decreases frames,
{
    if frames <= 0 {
        known
    } else {
        observe_sample(
            markers,
            interval,
            output_end,
            position + frames - 1,
            mapped[(frames - 1) * channels + channel],
            observe_block(
                markers,
                interval,
                output_end,
                position,
                mapped,
                channels,
                channel,
                frames - 1,
                known,
            ),
        )
    }
}

/// Some found delay differs from `delay`.
pub open spec fn some_delay_differs(delays: Seq<Option<u64>>, delay: u64) -> bool {
    exists|i: int| 0 <= i < 3 && (#[trigger] delays[i]) is Some && delays[i] != Some(delay)
}

/// The delay that the findings settle, nothing while markers are missing, or why they do not fit.
pub open spec fn settled_delay(
    delays: Seq<Option<u64>>,
    expected: Option<u64>,
) -> Result<Option<u64>, EngineError> {
    if expected is Some && some_delay_differs(delays, expected->0) {
        Err(EngineError::StartupLoopback("padded delay does not match target"))
    } else if delays[0] is None {
        Ok(None)
    } else if some_delay_differs(delays, delays[0]->0) {
        Err(EngineError::StartupLoopback("unstable loopback delay"))
    } else if delays[1] is Some && delays[2] is Some {
        Ok(delays[0])
    } else {
        Ok(None)
    }
}

/// The sample at index `k` of an interleaved block of `length` samples that begins at frame
/// `first`: the probe on its channel of every whole frame, and silence elsewhere.
pub open spec fn block_sample(
    markers: Seq<i32>,
    interval: u64,
    first: int,
    length: int,
    channels: int,
    channel: int,
    k: int,
) -> i32 {
    if k % channels == channel && k / channels < length / channels {
        probe_sample(markers, interval, first + k / channels)
    } else {
        0
    }
}

impl StartupLoopbackProbe {
    pub open spec fn findings(self) -> Findings {
        Findings { delays: self.delays@, failure: None }
    }

    /// Every marker frame can be counted.
    pub open spec fn wf(self) -> bool {
        3 * self.interval <= u64::MAX
    }

    pub fn new(markers: [i32; 3], interval: u64) -> (probe: Self)
        requires
            3 * interval <= u64::MAX,
        ensures
            probe.wf(),
            probe.markers == markers,
            probe.interval == interval,
            probe.delays@ == seq![None::<u64>, None::<u64>, None::<u64>],
    {
        let probe = StartupLoopbackProbe { markers, interval, delays: [None, None, None] };
        assert(probe.delays@ =~= seq![None::<u64>, None::<u64>, None::<u64>]);
        probe
    }

    /// Fills a playback block whose first frame is `position`.
    pub fn emit(&self, position: u64, mapped: &mut [i32], channels: usize, channel: usize)
        requires
            self.wf(),
            channel < channels,
            position + old(mapped)@.len() as int / channels as int <= u64::MAX + 1,
        ensures
            final(mapped)@.len() == old(mapped)@.len(),
            forall|k: int|
                0 <= k < final(mapped)@.len() ==> #[trigger] final(mapped)@[k] == block_sample(
                    self.markers@,
                    self.interval,
                    position as int,
                    old(mapped)@.len() as int,
                    channels as int,
                    channel as int,
                    k,
                ),
    {
        let length: usize = mapped.len();
        let frames: usize = length / channels;
        let mut i: usize = 0;
        while i < length
            invariant
                i <= length == mapped@.len(),
                mapped@.len() == old(mapped)@.len(),
                forall|k: int| 0 <= k < i ==> #[trigger] mapped@[k] == 0,
            decreases length - i,
        {
            mapped[i] = 0;
            i = i + 1;
        }
        proof {
            vstd::arithmetic::div_mod::lemma_div_is_ordered_by_denominator(
                length as int,
                1,
                channels as int,
            );
            vstd::arithmetic::div_mod::lemma_fundamental_div_mod(length as int, channels as int);
        }
        let mut frame: usize = 0;
        while frame < frames
            invariant
                self.wf(),
                channel < channels,
                frame <= frames,
                frames == length / channels,
                length == mapped@.len(),
                mapped@.len() == old(mapped)@.len(),
                position + frames <= u64::MAX + 1,
                frames <= length,
                forall|k: int|
                    0 <= k < mapped@.len() ==> #[trigger] mapped@[k] == if k % channels as int
                        == channel && (k / channels as int) < frame {
                        probe_sample(self.markers@, self.interval, position + k / channels as int)
                    } else {
                        0
                    },
            decreases frames - frame,
        {
            let at: u64 = position + frame as u64;
            let sample: i32 = if at == 3 * self.interval {
                self.markers[2]
            } else if at == 2 * self.interval {
                self.markers[1]
            } else if at == self.interval {
                self.markers[0]
            } else {
                0
            };
            proof {
                lemma_sample_index(frame as int, channels as int, channel as int, length as int);
            }
            let ghost before = mapped@;
            mapped[frame * channels + channel] = sample;
            proof {
                assert forall|k: int| 0 <= k < mapped@.len() implies #[trigger] mapped@[k] == if k
                    % channels as int == channel && (k / channels as int) < frame + 1 {
                    probe_sample(self.markers@, self.interval, position + k / channels as int)
                } else {
                    0
                } by {
                    if k % channels as int == channel && k / channels as int == frame {
                        vstd::arithmetic::div_mod::lemma_fundamental_div_mod(k, channels as int);
                        vstd::arithmetic::mul::lemma_mul_is_commutative(
                            frame as int,
                            channels as int,
                        );
                    } else {
                        assert(k != frame * channels + channel);
                        assert(mapped@[k] == before[k]);
                    }
                }
            }
            frame = frame + 1;
        }
    }

    /// Looks for markers in a captured block whose first frame is `position`, when playback has
    /// been committed up to `output_end`.
    pub fn observe(
        &mut self,
        position: u64,
        output_end: u64,
        mapped: &[i32],
        channels: usize,
        channel: usize,
    ) -> (result: Result<(), EngineError>)
        requires
            old(self).wf(),
            channel < channels,
            position + mapped@.len() as int / channels as int <= u64::MAX + 1,
        ensures
            final(self).wf(),
            final(self).markers == old(self).markers,
            final(self).interval == old(self).interval,
            ({
                let seen = observe_block(
                    old(self).markers@,
                    old(self).interval,
                    output_end,
                    position,
                    mapped@,
                    channels as int,
                    channel as int,
                    mapped@.len() as int / channels as int,
                    old(self).findings(),
                );
                &&& final(self).delays@ == seen.delays
                &&& match result {
                    Ok(_) => seen.failure is None,
                    Err(e) => seen.failure == Some(e),
                }
            }),
    {
        let length: usize = mapped.len();
        let frames: usize = length / channels;
        let ghost markers = self.markers@;
        let ghost start = self.findings();
        let mut frame: usize = 0;
        proof {
            vstd::arithmetic::div_mod::lemma_div_is_ordered_by_denominator(
                length as int,
                1,
                channels as int,
            );
        }
        while frame < frames
            invariant
                self.wf(),
                self.markers == old(self).markers,
                self.interval == old(self).interval,
                markers == self.markers@,
                start == old(self).findings(),
                channel < channels,
                frame <= frames,
                frames == length / channels,
                frames <= length,
                length == mapped@.len(),
                position + frames <= u64::MAX + 1,
                self.findings() == observe_block(
                    markers,
                    self.interval,
                    output_end,
                    position,
                    mapped@,
                    channels as int,
                    channel as int,
                    frame as int,
                    start,
                ),
            decreases frames - frame,
        {
            proof {
                lemma_sample_index(frame as int, channels as int, channel as int, length as int);
            }
            let sample: i32 = mapped[frame * channels + channel];
            let found: Option<usize> = if sample == self.markers[0] {
                Some(0)
            } else if sample == self.markers[1] {
                Some(1)
            } else if sample == self.markers[2] {
                Some(2)
            } else {
                None
            };
            let ghost known = self.findings();
            let ghost next = observe_sample(
                markers,
                self.interval,
                output_end,
                position + frame,
                sample,
                known,
            );
            assert(next == observe_block(
                markers,
                self.interval,
                output_end,
                position,
                mapped@,
                channels as int,
                channel as int,
                frame + 1,
                start,
            ));
            if let Some(index) = found {
                proof {
                    assert((index + 1) * self.interval <= 3 * self.interval) by (nonlinear_arith)
                        requires
                            index <= 2,
                    ;
                }
                let output_frame: u64 = (index as u64 + 1) * self.interval;
                let at: u64 = position + frame as u64;
                if output_frame < output_end {
                    if at < output_frame {
                        proof {
                            lemma_failure_stays(
                                markers,
                                self.interval,
                                output_end,
                                position,
                                mapped@,
                                channels as int,
                                channel as int,
                                frame + 1,
                                frames as int,
                                start,
                            );
                        }
                        return Err(
                            EngineError::StartupLoopback(
                                "probe arrived before its logical output frame",
                            ),
                        );
                    }
                    let repeated: bool = self.delays[index].is_some();
                    self.delays[index] = Some(at - output_frame);
                    assert(self.delays@ =~= known.delays.update(
                        index as int,
                        Some((at - output_frame) as u64),
                    ));
                    if repeated {
                        proof {
                            lemma_failure_stays(
                                markers,
                                self.interval,
                                output_end,
                                position,
                                mapped@,
                                channels as int,
                                channel as int,
                                frame + 1,
                                frames as int,
                                start,
                            );
                        }
                        return Err(EngineError::StartupLoopback("ambiguous repeated probe"));
                    }
                }
            }
            assert(self.findings() =~= next);
            frame = frame + 1;
        }
        Ok(())
    }

    /// The delay that has been found, once all markers agree.
    pub fn measured_delay(&self, expected: Option<u64>) -> (result: Result<
        Option<u64>,
        EngineError,
    >)
        ensures
            result == settled_delay(self.delays@, expected),
    {
        if let Some(delay) = expected {
            if self.differs_from(delay) {
                return Err(EngineError::StartupLoopback("padded delay does not match target"));
            }
        }
        match self.delays[0] {
            None => Ok(None),
            Some(first) => {
                if self.differs_from(first) {
                    return Err(EngineError::StartupLoopback("unstable loopback delay"));
                }
                if self.delays[1].is_some() && self.delays[2].is_some() {
                    Ok(Some(first))
                } else {
                    Ok(None)
                }
            },
        }
    }

    fn differs_from(&self, delay: u64) -> (differs: bool)
        ensures
            differs == some_delay_differs(self.delays@, delay),
    {
        let mut i: usize = 0;
        while i < 3
            invariant
                i <= 3,
                forall|k: int|
                    0 <= k < i ==> !((#[trigger] self.delays@[k]) is Some && self.delays@[k]
                        != Some(delay)),
            decreases 3 - i,
        {
            if let Some(found) = self.delays[i] {
                if found != delay {
                    assert(self.delays@[i as int] is Some);
                    return true;
                }
            }
            i = i + 1;
        }
        false
    }
}

/// A sample of a whole frame lies inside the block.
proof fn lemma_sample_index(frame: int, channels: int, channel: int, length: int)
    requires
        0 <= frame < length / channels,
        0 <= channel < channels,
        0 <= length,
    ensures
        0 <= frame * channels,
        frame * channels + channel < length,
        (frame * channels + channel) % channels == channel,
        (frame * channels + channel) / channels == frame,
{
    vstd::arithmetic::div_mod::lemma_fundamental_div_mod(length, channels);
    let all = length / channels;
    assert(frame * channels + channels <= all * channels) by (nonlinear_arith)
        requires
            frame + 1 <= all,
            channels > 0,
    ;
    assert(all * channels == channels * all) by (nonlinear_arith);
    assert(frame * channels >= 0) by (nonlinear_arith)
        requires
            frame >= 0,
            channels > 0,
    ;
    assert(frame * channels == channels * frame) by (nonlinear_arith);
    vstd::arithmetic::div_mod::lemma_fundamental_div_mod_converse(
        frame * channels + channel,
        channels,
        frame,
        channel,
    );
}

/// A failure is not undone by later frames.
proof fn lemma_failure_stays(
    markers: Seq<i32>,
    interval: u64,
    output_end: u64,
    position: u64,
    mapped: Seq<i32>,
    channels: int,
    channel: int,
    frames: int,
    all: int,
    known: Findings,
)
    requires
        0 <= frames <= all,
        observe_block(
            markers,
            interval,
            output_end,
            position,
            mapped,
            channels,
            channel,
            frames,
            known,
        ).failure is Some,
    ensures
        observe_block(
            markers,
            interval,
            output_end,
            position,
            mapped,
            channels,
            channel,
            all,
            known,
        ) == observe_block(
            markers,
            interval,
            output_end,
            position,
            mapped,
            channels,
            channel,
            frames,
            known,
        ),
    decreases all - frames,
{
    if frames < all {
        lemma_failure_stays(
            markers,
            interval,
            output_end,
            position,
            mapped,
            channels,
            channel,
            frames,
            all - 1,
            known,
        );
    }
}

/// Zero frames that playback is padded with, or why it cannot be padded: the measured delay must
/// not exceed the target, and a full client block must still fit behind the padding.
pub open spec fn padding_for(
    measured: u64,
    target: u32,
    start_frames: i64,
    buffer: i64,
    period: i64,
) -> Result<int, EngineError> {
    if measured > target {
        Err(EngineError::StartupLoopback("unpadded loopback delay already exceeds target"))
    } else if buffer - start_frames < i64::MIN || buffer - start_frames > i64::MAX || buffer
        - start_frames - period < 0 || buffer - start_frames - period > i64::MAX {
        Err(EngineError::StartupLoopback("no full client block reserve in playback buffer"))
    } else if target - measured > buffer - start_frames - period {
        Err(EngineError::StartupLoopback("padding would consume the client block reserve"))
    } else {
        Ok(target - measured)
    }
}

pub fn startup_loopback_padding(
    measured: u64,
    target: u32,
    start_frames: i64,
    buffer: i64,
    period: i64,
) -> (result: Result<usize, EngineError>)
    ensures
        match padding_for(measured, target, start_frames, buffer, period) {
            Ok(frames) => result matches Ok(padding) && padding == frames,
            Err(e) => result == Err::<usize, EngineError>(e),
        },
{
    if measured > target as u64 {
        return Err(
            EngineError::StartupLoopback("unpadded loopback delay already exceeds target"),
        );
    }
    let padding: u64 = target as u64 - measured;
    let capacity: i64 = match buffer.checked_sub(start_frames) {
        Some(behind) => match behind.checked_sub(period) {
            Some(capacity) => capacity,
            None => -1,
        },
        None => -1,
    };
    if capacity < 0 {
        return Err(
            EngineError::StartupLoopback("no full client block reserve in playback buffer"),
        );
    }
    if padding > capacity as u64 {
        return Err(
            EngineError::StartupLoopback("padding would consume the client block reserve"),
        );
    }
    Ok(padding as usize)
}

/// Every failed qualification is reported as one, so that the service is not restarted; only a
/// request to stop is handed on.
pub fn startup_loopback_error(error: EngineError) -> (reported: EngineError)
    ensures
        reported == if error is Stopped || error is StartupLoopback {
            error
        } else {
            EngineError::StartupLoopback("PCM transfer failed during normalization")
        },
{
    match error {
        EngineError::Stopped => EngineError::Stopped,
        EngineError::StartupLoopback(reason) => EngineError::StartupLoopback(reason),
        _ => EngineError::StartupLoopback("PCM transfer failed during normalization"),
    }
}

/// Time that a qualification may take.
pub const STARTUP_LOOPBACK_NANOS: u64 = 2_000_000_000;

pub fn check_startup_loopback_deadline(stopping: bool, now_nanos: u64, deadline_nanos: u64) -> (result:
    Result<(), EngineError>)
    ensures
        result == if stopping {
            Err::<(), EngineError>(EngineError::Stopped)
        } else if now_nanos >= deadline_nanos {
            Err::<(), EngineError>(EngineError::StartupLoopback("two-second deadline expired"))
        } else {
            Ok::<(), EngineError>(())
        },
{
    if stopping {
        return Err(EngineError::Stopped);
    }
    if now_nanos >= deadline_nanos {
        return Err(EngineError::StartupLoopback("two-second deadline expired"));
    }
    Ok(())
}

/// Whether a stream with `available` frames still has to be waited for.
pub fn startup_stream_pending(available: i64, required: u32) -> (pending: bool)
    ensures
        pending == (available < required),
{
    available < required as i64
}

/// Takes `count` more poll descriptors behind the `used` ones, of which `filled` were filled in.
pub fn take_poll_descriptors(used: usize, count: usize, filled: usize) -> (result: Result<
    usize,
    EngineError,
>)
    requires
        used <= MAX_POLL_DESCRIPTORS,
    ensures
        result == if count == 0 || count > MAX_POLL_DESCRIPTORS - used {
            Err::<usize, EngineError>(
                EngineError::StartupLoopback("invalid PCM poll descriptor count"),
            )
        } else if filled != count {
            Err::<usize, EngineError>(
                EngineError::StartupLoopback("incomplete PCM poll descriptors"),
            )
        } else {
            Ok::<usize, EngineError>((used + count) as usize)
        },
{
    if count == 0 || count > MAX_POLL_DESCRIPTORS - used {
        return Err(EngineError::StartupLoopback("invalid PCM poll descriptor count"));
    }
    if filled != count {
        return Err(EngineError::StartupLoopback("incomplete PCM poll descriptors"));
    }
    Ok(used + count)
}

/// What is asked of a loopback.
#[derive(Clone, Copy, Debug, PartialEq, Eq, Structural)]
pub struct StartupLoopbackConfig {
    pub playback_channel: u32,
    pub capture_channel: u32,
    pub target_frames: u32,
}

/// What the qualification needs to know about the streams.
#[derive(Clone, Copy, Debug, PartialEq, Eq, Structural)]
pub struct NormalizationConfig {
    pub target_frames: u32,
    pub period: u32,
    pub rate: u32,
    pub start_frames: i64,
    pub buffer: i64,
}

/// What follows one period of a qualification.
#[derive(Clone, Copy, Debug, PartialEq, Eq, Structural)]
pub enum NormalizationStep {
    /// Transfer another period.
    Continue,
    /// Play this many zero frames, then go on with the confirming markers.
    Pad { frames: usize },
    /// The loopback has the configured delay.
    Qualified,
}

/// The markers of the measuring phase. They are multiples of 32 units of a 24-bit path, which
/// tells mixer steps of one decibel apart while staying below -98 dBFS.
pub const MEASURING_MARKERS: [i32; 3] = [8192, -8192, 16384];

/// The markers of the confirming phase.
pub const CONFIRMING_MARKERS: [i32; 3] = [-16384, 24576, -24576];

/// Frames between markers: longer than the target delay and two periods, and than a twelfth of a
/// second.
pub open spec fn marker_interval(config: NormalizationConfig) -> int {
    crate::arith::greatest(
        config.target_frames + 2 * config.period,
        (config.rate / 12) + 1,
    )
}

/// A qualification under way.
#[derive(Clone, Copy, Debug, PartialEq, Eq)]
pub struct StartupNormalization {
    pub config: NormalizationConfig,
    pub confirming: bool,
    pub position: u64,
    pub probe: StartupLoopbackProbe,
}

impl StartupNormalization {
    pub open spec fn wf(self) -> bool {
        &&& self.probe.wf()
        &&& self.probe.interval == marker_interval(self.config)
        &&& self.probe.markers == if self.confirming {
            CONFIRMING_MARKERS
        } else {
            MEASURING_MARKERS
        }
        &&& self.position < 4 * self.probe.interval
    }

    /// Begins with the measuring markers at frame zero.
    pub fn new(config: NormalizationConfig) -> (normalization: Self)
        ensures
            normalization.wf(),
            normalization.config == config,
            !normalization.confirming,
            normalization.position == 0,
            normalization.probe.interval >= config.target_frames + 2 * config.period,
            12 * normalization.probe.interval > config.rate,
            normalization.probe.interval == config.target_frames + 2 * config.period
                || normalization.probe.interval == config.rate / 12 + 1,
            normalization.probe.markers@ == seq![8192i32, -8192i32, 16384i32],
            normalization.probe.delays@ == seq![None::<u64>, None::<u64>, None::<u64>],
    {
        let blocks: u64 = config.target_frames as u64 + 2 * (config.period as u64);
        let twelfth: u64 = (config.rate / 12) as u64 + 1;
        let interval: u64 = if blocks > twelfth {
            blocks
        } else {
            twelfth
        };
        StartupNormalization {
            config,
            confirming: false,
            position: 0,
            probe: StartupLoopbackProbe::new(MEASURING_MARKERS, interval),
        }
    }

    /// Looks at a captured block that begins `offset` frames into the period.
    pub fn observe(
        &mut self,
        offset: u32,
        mapped: &[i32],
        channels: usize,
        channel: usize,
    ) -> (result: Result<(), EngineError>)
        requires
            old(self).wf(),
            channel < channels,
            mapped@.len() as int / channels as int <= u32::MAX,
        ensures
            final(self).wf(),
            final(self).config == old(self).config,
            final(self).confirming == old(self).confirming,
            final(self).position == old(self).position,
            ({
                let seen = observe_block(
                    old(self).probe.markers@,
                    old(self).probe.interval,
                    old(self).position,
                    (old(self).position + offset) as u64,
                    mapped@,
                    channels as int,
                    channel as int,
                    mapped@.len() as int / channels as int,
                    old(self).probe.findings(),
                );
                &&& final(self).probe.delays@ == seen.delays
                &&& match result {
                    Ok(_) => seen.failure is None,
                    Err(e) => seen.failure == Some(e),
                }
            }),
    {
        self.probe.observe(self.position + offset as u64, self.position, mapped, channels, channel)
    }

    /// Fills a playback block that begins `offset` frames into the period.
    pub fn emit(&self, offset: u32, mapped: &mut [i32], channels: usize, channel: usize)
        requires
            self.wf(),
            channel < channels,
            old(mapped)@.len() as int / channels as int <= u32::MAX,
        ensures
            final(mapped)@.len() == old(mapped)@.len(),
            forall|k: int|
                0 <= k < final(mapped)@.len() ==> #[trigger] final(mapped)@[k] == block_sample(
                    self.probe.markers@,
                    self.probe.interval,
                    self.position + offset,
                    old(mapped)@.len() as int,
                    channels as int,
                    channel as int,
                    k,
                ),
    {
        self.probe.emit(self.position + offset as u64, mapped, channels, channel);
    }

    /// Accounts for a transferred period and says how to go on. Once the measuring markers agree,
    /// the padding is decided and the confirming markers begin at a new frame zero; the padding
    /// does not count as logical output.
    pub fn period_done(&mut self) -> (result: Result<NormalizationStep, EngineError>)
        requires
            old(self).wf(),
        ensures
            final(self).config == old(self).config,
            ({
                let expected = if old(self).confirming {
                    Some(old(self).config.target_frames as u64)
                } else {
                    None
                };
                let position = old(self).position + old(self).config.period;
                match settled_delay(old(self).probe.delays@, expected) {
                    Err(e) => result == Err::<NormalizationStep, EngineError>(e),
                    Ok(None) => if position >= 4 * old(self).probe.interval {
                        result == Err::<NormalizationStep, EngineError>(
                            EngineError::StartupLoopback("missing digital loopback probe"),
                        )
                    } else {
                        &&& result == Ok::<NormalizationStep, EngineError>(
                            NormalizationStep::Continue,
                        )
                        &&& final(self).wf()
                        &&& *final(self) == StartupNormalization {
                            position: position as u64,
                            ..*old(self)
                        }
                    },
                    Ok(Some(measured)) => if old(self).confirming {
                        result == Ok::<NormalizationStep, EngineError>(
                            NormalizationStep::Qualified,
                        )
                    } else {
                        match padding_for(
                            measured,
                            old(self).config.target_frames,
                            old(self).config.start_frames,
                            old(self).config.buffer,
                            old(self).config.period as i64,
                        ) {
                            Ok(frames) => {
                                &&& result == Ok::<NormalizationStep, EngineError>(
                                    NormalizationStep::Pad { frames: frames as usize },
                                )
                                &&& final(self).wf()
                                &&& final(self).confirming
                                &&& final(self).position == 0
                                &&& final(self).probe.interval == old(self).probe.interval
                                &&& final(self).probe.markers@ == seq![-16384i32, 24576i32, -24576i32]
                                &&& final(self).probe.delays@ == seq![
                                    None::<u64>,
                                    None::<u64>,
                                    None::<u64>,
                                ]
                            },
                            Err(e) => result == Err::<NormalizationStep, EngineError>(e),
                        }
                    },
                }
            }),
    {
        let expected: Option<u64> = if self.confirming {
            Some(self.config.target_frames as u64)
        } else {
            None
        };
        self.position = self.position + self.config.period as u64;
        match self.probe.measured_delay(expected) {
            Err(error) => Err(error),
            Ok(None) => {
                if self.position >= 4 * self.probe.interval {
                    return Err(EngineError::StartupLoopback("missing digital loopback probe"));
                }
                Ok(NormalizationStep::Continue)
            },
            Ok(Some(measured)) => {
                if self.confirming {
                    return Ok(NormalizationStep::Qualified);
                }
                match startup_loopback_padding(
                    measured,
                    self.config.target_frames,
                    self.config.start_frames,
                    self.config.buffer,
                    self.config.period as i64,
                ) {
                    Ok(frames) => {
                        self.confirming = true;
                        self.position = 0;
                        self.probe = StartupLoopbackProbe::new(
                            CONFIRMING_MARKERS,
                            self.probe.interval,
                        );
                        Ok(NormalizationStep::Pad { frames })
                    },
                    Err(error) => Err(error),
                }
            },
        }
    }
}

/// Padding brings the measured delay to the target exactly, and still leaves room for a full
/// client block behind the primed frames.
pub proof fn padding_reaches_the_target(
    measured: u64,
    target: u32,
    start_frames: i64,
    buffer: i64,
    period: i64,
)
    requires
        padding_for(measured, target, start_frames, buffer, period) is Ok,
    ensures
        ({
            let padding = padding_for(measured, target, start_frames, buffer, period)->Ok_0;
            &&& padding >= 0
            &&& measured + padding == target
            &&& start_frames + padding + period <= buffer
        }),
{
}

/// Markers are found by their exact value at their exact delay: a marker that was played at its
/// frame and captured `delay` frames later is recorded with that delay.
pub proof fn marker_is_found_at_its_delay(
    markers: Seq<i32>,
    interval: u64,
    output_end: u64,
    index: int,
    delay: u64,
    known: Findings,
)
    requires
        markers.len() == 3,
        markers[0] != markers[1],
        markers[0] != markers[2],
        markers[1] != markers[2],
        0 <= index < 3,
        interval > 0,
        marker_frame(interval, index) < output_end,
        known.failure is None,
        known.delays.len() == 3,
        known.delays[index] is None,
    ensures
        probe_sample(markers, interval, marker_frame(interval, index)) == markers[index],
        observe_sample(
            markers,
            interval,
            output_end,
            marker_frame(interval, index) + delay,
            markers[index],
            known,
        ) == (Findings { delays: known.delays.update(index, Some(delay)), failure: None }),
{
    assert(marker_frame(interval, 0) == interval);
    assert(marker_frame(interval, 1) == 2 * interval);
    assert(marker_frame(interval, 2) == 3 * interval);
}

/// What is played at a frame does not depend on how the stream is cut into blocks: the samples of a
/// frame are the same whether it stands `first` frames into one block or at the front of the next.
pub proof fn emission_ignores_block_boundaries(
    markers: Seq<i32>,
    interval: u64,
    first: int,
    length: int,
    channels: int,
    channel: int,
    cut: int,
    k: int,
)
    requires
        0 <= channel < channels,
        0 <= cut <= length / channels,
        length % channels == 0,
        0 <= k < length - cut * channels,
    ensures
        block_sample(
            markers,
            interval,
            first + cut,
            length - cut * channels,
            channels,
            channel,
            k,
        ) == block_sample(markers, interval, first, length, channels, channel, cut * channels + k),
{
    vstd::arithmetic::div_mod::lemma_fundamental_div_mod(length, channels);
    vstd::arithmetic::div_mod::lemma_fundamental_div_mod(k, channels);
    let all = length / channels;
    assert(length - cut * channels == channels * (all - cut)) by (nonlinear_arith)
        requires
            length == channels * all,
    ;
    vstd::arithmetic::div_mod::lemma_fundamental_div_mod_converse(
        length - cut * channels,
        channels,
        all - cut,
        0,
    );
    assert(cut * channels + k == channels * (cut + k / channels) + k % channels)
        by (nonlinear_arith)
        requires
            k == channels * (k / channels) + k % channels,
    ;
    vstd::arithmetic::div_mod::lemma_mod_bound(k, channels);
    vstd::arithmetic::div_mod::lemma_fundamental_div_mod_converse(
        cut * channels + k,
        channels,
        cut + k / channels,
        k % channels,
    );
}

/// A block as it is played.
pub open spec fn emitted_block(
    markers: Seq<i32>,
    interval: u64,
    first: int,
    length: nat,
    channels: int,
    channel: int,
) -> Seq<i32> {
    Seq::new(
        length,
        |k: int| block_sample(markers, interval, first, length as int, channels, channel, k),
    )
}

/// Cutting a block of whole frames in two, anywhere between two frames, plays the same samples as
/// the whole block.
pub proof fn a_cut_block_plays_the_same(
    markers: Seq<i32>,
    interval: u64,
    first: int,
    frames: nat,
    channels: int,
    channel: int,
    cut: nat,
)
    requires
        0 <= channel < channels,
        cut <= frames,
    ensures
        emitted_block(
            markers,
            interval,
            first,
            (cut * channels) as nat,
            channels,
            channel,
        ) + emitted_block(
            markers,
            interval,
            first + cut,
            ((frames - cut) * channels) as nat,
            channels,
            channel,
        ) == emitted_block(
            markers,
            interval,
            first,
            (frames * channels) as nat,
            channels,
            channel,
        ),
{
    let n = channels;
    let length = frames * n;
    let head = cut * n;
    let tail = (frames - cut) * n;
    assert(head >= 0 && tail >= 0 && head + tail == length) by (nonlinear_arith)
        requires
            head == cut * n,
            tail == (frames - cut) * n,
            length == frames * n,
            n > 0,
            0 <= cut <= frames,
    ;
    assert(frames * n == n * frames && cut * n == n * cut) by (nonlinear_arith);
    vstd::arithmetic::div_mod::lemma_fundamental_div_mod_converse(length, n, frames as int, 0);
    vstd::arithmetic::div_mod::lemma_fundamental_div_mod_converse(head, n, cut as int, 0);
    let whole = emitted_block(markers, interval, first, length as nat, n, channel);
    let front = emitted_block(markers, interval, first, head as nat, n, channel);
    let back = emitted_block(markers, interval, first + cut, tail as nat, n, channel);
    assert forall|k: int| 0 <= k < length implies #[trigger] (front + back)[k] == whole[k] by {
        if k < head {
            vstd::arithmetic::div_mod::lemma_fundamental_div_mod(k, n);
            assert(k / n < cut) by (nonlinear_arith)
                requires
                    k < cut * n,
                    k == n * (k / n) + k % n,
                    k % n >= 0,
                    n > 0,
            ;
        } else {
            emission_ignores_block_boundaries(
                markers,
                interval,
                first,
                length,
                n,
                channel,
                cut as int,
                k - head,
            );
        }
    }
    assert(front + back =~= whole);
}

/// Silence and any value that is not exactly a marker tell nothing: a constant, attenuated or
/// noisy input cannot qualify.
pub proof fn other_samples_tell_nothing(
    markers: Seq<i32>,
    interval: u64,
    output_end: u64,
    position: int,
    sample: i32,
    known: Findings,
)
    requires
        sample != markers[0],
        sample != markers[1],
        sample != markers[2],
    ensures
        observe_sample(markers, interval, output_end, position, sample, known) == known,
{
}

/// The two marker sets have six different values, none of which is silence.
pub proof fn markers_are_distinct()
    ensures
        forall|i: int, j: int|
            #![trigger MEASURING_MARKERS@[i], MEASURING_MARKERS@[j]]
            0 <= i < j < 3 ==> MEASURING_MARKERS@[i] != MEASURING_MARKERS@[j],
        forall|i: int, j: int|
            #![trigger CONFIRMING_MARKERS@[i], CONFIRMING_MARKERS@[j]]
            0 <= i < j < 3 ==> CONFIRMING_MARKERS@[i] != CONFIRMING_MARKERS@[j],
        forall|i: int, j: int|
            #![trigger MEASURING_MARKERS@[i], CONFIRMING_MARKERS@[j]]
            0 <= i < 3 && 0 <= j < 3 ==> MEASURING_MARKERS@[i] != CONFIRMING_MARKERS@[j],
        forall|i: int| 0 <= i < 3 ==> #[trigger] MEASURING_MARKERS@[i] != 0,
        forall|i: int| 0 <= i < 3 ==> #[trigger] CONFIRMING_MARKERS@[i] != 0,
{
}

/// A marker that comes back is judged by when it was played: before playback reached it, it tells
/// nothing; a marker captured before its own frame, or for a second time, ends the search; any other
/// is found with the frames that it took.
pub proof fn a_marker_is_judged_by_its_frame(
    markers: Seq<i32>,
    interval: u64,
    output_end: u64,
    position: int,
    index: int,
    known: Findings,
)
    requires
        markers.len() == 3,
        markers[0] != markers[1],
        markers[0] != markers[2],
        markers[1] != markers[2],
        0 <= index < 3,
        known.failure is None,
        known.delays.len() == 3,
        0 <= position <= u64::MAX,
    ensures
        ({
            let played = if index == 0 {
                interval as int
            } else if index == 1 {
                interval + interval
            } else {
                interval + interval + interval
            };
            let seen = observe_sample(
                markers,
                interval,
                output_end,
                position,
                markers[index],
                known,
            );
            &&& played >= output_end ==> seen == known
            &&& played < output_end && position < played ==> {
                &&& seen.delays == known.delays
                &&& seen.failure == Some(
                    EngineError::StartupLoopback("probe arrived before its logical output frame"),
                )
            }
            &&& played < output_end && position >= played ==> {
                &&& seen.delays.len() == 3
                &&& seen.delays[index] is Some
                &&& seen.delays[index]->0 == position - played
                &&& forall|i: int|
                    0 <= i < 3 && i != index ==> #[trigger] seen.delays[i] == known.delays[i]
                &&& known.delays[index] is None ==> seen.failure is None
                &&& known.delays[index] is Some ==> seen.failure == Some(
                    EngineError::StartupLoopback("ambiguous repeated probe"),
                )
            }
        }),
{
    assert(marker_frame(interval, 0) == interval);
    assert(marker_frame(interval, 1) == interval + interval);
    assert(marker_frame(interval, 2) == interval + interval + interval);
}

/// A probe plays each marker at its multiple of the interval, and silence at every other frame.
pub proof fn markers_are_played_an_interval_apart(markers: Seq<i32>, interval: u64, frame: int)
    requires
        interval > 0,
    ensures
        frame == interval ==> probe_sample(markers, interval, frame) == markers[0],
        frame == interval + interval ==> probe_sample(markers, interval, frame) == markers[1],
        frame == interval + interval + interval ==> probe_sample(markers, interval, frame)
            == markers[2],
        frame != interval && frame != interval + interval && frame != interval + interval
            + interval ==> probe_sample(markers, interval, frame) == 0,
{
    assert(marker_frame(interval, 0) == interval);
    assert(marker_frame(interval, 1) == interval + interval);
    assert(marker_frame(interval, 2) == interval + interval + interval);
}

/// The probe stands on its own channel of every whole frame; all other samples are silent.
pub proof fn a_probe_stays_on_its_channel(
    markers: Seq<i32>,
    interval: u64,
    first: int,
    frames: int,
    channels: int,
    channel: int,
    frame: int,
    other: int,
)
    requires
        0 <= channel < channels,
        0 <= other < channels,
        0 <= frame < frames,
    ensures
        block_sample(
            markers,
            interval,
            first,
            frames * channels,
            channels,
            channel,
            frame * channels + other,
        ) == if other == channel {
            probe_sample(markers, interval, first + frame)
        } else {
            0
        },
{
    vstd::arithmetic::div_mod::lemma_fundamental_div_mod_converse(
        frame * channels + other,
        channels,
        frame,
        other,
    );
    vstd::arithmetic::div_mod::lemma_fundamental_div_mod_converse(
        frames * channels,
        channels,
        frames,
        0,
    );
    assert(frame * channels + other == channels * frame + other) by (nonlinear_arith);
    assert(frames * channels == channels * frames) by (nonlinear_arith);
}

/// A delay is settled when all three markers took it and, where one is expected, it is the expected
/// one. Markers that disagree are refused, and a missing marker settles nothing.
pub proof fn three_equal_delays_settle_it(
    delays: Seq<Option<u64>>,
    expected: Option<u64>,
    delay: u64,
)
    requires
        delays.len() == 3,
    ensures
        settled_delay(delays, expected) == Ok::<Option<u64>, EngineError>(Some(delay)) <==> (
            delays[0] == Some(delay) && delays[1] == Some(delay) && delays[2] == Some(delay) && (
            expected is None || expected == Some(delay))),
        expected is Some && (exists|i: int|
            0 <= i < 3 && (#[trigger] delays[i]) is Some && delays[i] != expected)
            ==> settled_delay(delays, expected) == Err::<Option<u64>, EngineError>(
            EngineError::StartupLoopback("padded delay does not match target"),
        ),
        expected is None && delays[0] is Some && (exists|i: int|
            0 <= i < 3 && (#[trigger] delays[i]) is Some && delays[i] != delays[0])
            ==> settled_delay(delays, expected) == Err::<Option<u64>, EngineError>(
            EngineError::StartupLoopback("unstable loopback delay"),
        ),
        expected is None && delays[0] is None ==> settled_delay(delays, expected) == Ok::<
            Option<u64>,
            EngineError,
        >(None),
{
    if expected is None && delays[0] is Some && (exists|i: int|
        0 <= i < 3 && (#[trigger] delays[i]) is Some && delays[i] != delays[0]) {
        let i = choose|i: int| 0 <= i < 3 && (#[trigger] delays[i]) is Some && delays[i] != delays[0];
        assert(delays[i] != Some(delays[0]->0));
    }
    if expected is Some && (exists|i: int|
        0 <= i < 3 && (#[trigger] delays[i]) is Some && delays[i] != expected) {
        let i = choose|i: int| 0 <= i < 3 && (#[trigger] delays[i]) is Some && delays[i] != expected;
        assert(delays[i] != Some(expected->0));
    }
    assert(delays[0] == delays[0] && delays[1] == delays[1] && delays[2] == delays[2]);
}

/// Padding is refused for what is wrong: a delay beyond the target first, a buffer without room for
/// a client block next, and padding that would take that room last. Otherwise it is granted.
pub proof fn padding_is_refused_for_what_is_wrong(
    measured: u64,
    target: u32,
    start_frames: i64,
    buffer: i64,
    period: i64,
)
    requires
        0 <= start_frames,
        0 <= period,
        0 <= buffer,
    ensures
        measured > target ==> padding_for(measured, target, start_frames, buffer, period) == Err::<
            int,
            EngineError,
        >(EngineError::StartupLoopback("unpadded loopback delay already exceeds target")),
        measured <= target && start_frames + period > buffer ==> padding_for(
            measured,
            target,
            start_frames,
            buffer,
            period,
        ) == Err::<int, EngineError>(
            EngineError::StartupLoopback("no full client block reserve in playback buffer"),
        ),
        measured <= target && start_frames + period <= buffer && start_frames + period + (target
            - measured) > buffer ==> padding_for(measured, target, start_frames, buffer, period)
            == Err::<int, EngineError>(
            EngineError::StartupLoopback("padding would consume the client block reserve"),
        ),
        measured <= target && start_frames + period + (target - measured) <= buffer ==> padding_for(
            measured,
            target,
            start_frames,
            buffer,
            period,
        ) == Ok::<int, EngineError>(target - measured),
{
}

/// A qualification may take two seconds, and a poll takes thirty-two descriptors.
pub proof fn a_qualification_has_its_limits()
    ensures
        STARTUP_LOOPBACK_NANOS == 2_000_000_000,
        MAX_POLL_DESCRIPTORS == 32,
        MARKER_COUNT == 3,
{
}

/// As long as the markers that came back agree with each other and with what is expected, a missing
/// marker is waited for.
pub proof fn a_missing_marker_is_waited_for(
    delays: Seq<Option<u64>>,
    expected: Option<u64>,
    delay: u64,
)
    requires
        delays.len() == 3,
        forall|i: int| 0 <= i < 3 ==> #[trigger] delays[i] is None || delays[i] == Some(delay),
        delays[0] is None || delays[1] is None || delays[2] is None,
        expected is None || expected == Some(delay),
    ensures
        settled_delay(delays, expected) == Ok::<Option<u64>, EngineError>(None),
{
    assert(delays[0] is None || delays[0] == Some(delay));
    assert(delays[1] is None || delays[1] == Some(delay));
    assert(delays[2] is None || delays[2] == Some(delay));
}

/// Padding goes by the frames behind the primed ones: where they cannot be counted there is no
/// reserve, and otherwise the padding must leave a client block of them.
pub proof fn padding_goes_by_the_frames_behind(
    measured: u64,
    target: u32,
    start_frames: i64,
    buffer: i64,
    period: i64,
)
    requires
        measured <= target,
    ensures
        ({
            let behind = buffer - start_frames;
            let spare = behind - period;
            let counted = i64::MIN <= behind <= i64::MAX && spare <= i64::MAX;
            let padding = padding_for(measured, target, start_frames, buffer, period);
            &&& !counted || spare < 0 ==> padding == Err::<int, EngineError>(
                EngineError::StartupLoopback("no full client block reserve in playback buffer"),
            )
            &&& counted && 0 <= spare < target - measured ==> padding == Err::<int, EngineError>(
                EngineError::StartupLoopback("padding would consume the client block reserve"),
            )
            &&& counted && 0 <= target - measured <= spare ==> padding == Ok::<int, EngineError>(
                target - measured,
            )
        }),
{
}

/// Markers are further apart than the target delay with two periods, and than a twelfth of a second,
/// and no further than that asks for.
pub proof fn markers_are_far_enough_apart(config: NormalizationConfig)
    ensures
        marker_interval(config) >= config.target_frames + 2 * config.period,
        12 * marker_interval(config) > config.rate,
        marker_interval(config) == config.target_frames + 2 * config.period || 12 * (
        marker_interval(config) - 1) <= config.rate,
{
}

} // verus!
