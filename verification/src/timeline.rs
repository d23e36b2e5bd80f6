//! Counters and positions of the hardware streams.
//!
//! The timeline tells hardware events apart from client events: only a restart of the streams
//! changes the generation, and no client can.
use vstd::prelude::*;
use crate::error::StreamDirection;

verus! {

/// Number of recent sequences whose capture time is remembered.
pub const PRO_TIMING_SLOT_COUNT: usize = 8;

/// When the capture period of a sequence was read; zero when it was not.
#[derive(Clone, Copy, Debug, PartialEq, Eq, Structural)]
pub struct ProTimingSlot {
    pub sequence: u64,
    pub capture_read_nanos: u64,
}

/// Everything that is counted about the hardware streams.
///
/// Minima are kept as the smallest value plus one, so that zero means that nothing was recorded.
#[derive(Clone, Copy, Debug)]
pub struct HardwareTimeline {
    pub generation: u64,
    pub sample_position: u64,
    pub playback_position: u64,
    pub capture_position: u64,
    pub playback_xruns: u64,
    pub capture_xruns: u64,
    pub playback_delay_frames: u64,
    pub capture_delay_frames: u64,
    pub playback_delay_min_frames: u64,
    pub playback_delay_max_frames: u64,
    pub playback_ring_delay_frames: u64,
    pub playback_ring_delay_min_frames: u64,
    pub playback_ring_delay_max_frames: u64,
    pub playback_driver_delay_frames: u64,
    pub playback_driver_delay_min_frames: u64,
    pub playback_driver_delay_max_frames: u64,
    pub capture_delay_min_frames: u64,
    pub capture_delay_max_frames: u64,
    pub playback_target_overshoot_max_frames: u64,
    pub capture_clock_wait_max_nanos: u64,
    pub pro_wait_budget_min_nanos: u64,
    pub pro_wait_budget_max_nanos: u64,
    pub pro_ready_wait_max_nanos: u64,
    pub playback_write_max_nanos: u64,
    pub capture_to_playback_write_nanos: u64,
    pub capture_to_playback_write_min_nanos: u64,
    pub capture_to_playback_write_max_nanos: u64,
    pub duplex_pointer_phase_nanos: i64,
    pub duplex_pointer_phase_min_nanos: i64,
    pub duplex_pointer_phase_max_nanos: i64,
    pub duplex_pointer_phase_samples: u64,
    pub linked_phase_attempts: u64,
    pub linked_phase_rebases: u64,
    pub linked_phase_score_nanos: u64,
    pub linked_phase_target_met: bool,
    pub playback_low_watermarks: u64,
    pub pro_deadline_misses: u64,
    pub pro_client_deadline_misses: u64,
    pub pro_core_deadline_misses: u64,
    pub pro_capture_overruns: u64,
    pub pro_playback_blocks: u64,
    pub pro_playback_nonzero_blocks: u64,
    pub shared_underruns: u64,
    pub shared_overruns: u64,
    pub timeline_resets: u64,
    pub periods_processed: u64,
    pub pro_timing: [ProTimingSlot; 8],
}

/// A report of the timeline, with minima as plain values.
#[derive(Clone, Copy, Debug, PartialEq, Eq, Structural)]
pub struct HardwareStats {
    pub generation: u64,
    pub sample_position: u64,
    pub playback_position: u64,
    pub capture_position: u64,
    pub hw_playback_xruns: u64,
    pub hw_capture_xruns: u64,
    pub playback_delay_frames: u64,
    pub capture_delay_frames: u64,
    pub playback_delay_min_frames: u64,
    pub playback_delay_max_frames: u64,
    pub playback_ring_delay_frames: u64,
    pub playback_ring_delay_min_frames: u64,
    pub playback_ring_delay_max_frames: u64,
    pub playback_driver_delay_frames: u64,
    pub playback_driver_delay_min_frames: u64,
    pub playback_driver_delay_max_frames: u64,
    pub capture_delay_min_frames: u64,
    pub capture_delay_max_frames: u64,
    pub playback_target_overshoot_max_frames: u64,
    pub capture_clock_wait_max_nanos: u64,
    pub pro_wait_budget_min_nanos: u64,
    pub pro_wait_budget_max_nanos: u64,
    pub pro_ready_wait_max_nanos: u64,
    pub playback_write_max_nanos: u64,
    pub capture_to_playback_write_nanos: u64,
    pub capture_to_playback_write_min_nanos: u64,
    pub capture_to_playback_write_max_nanos: u64,
    pub duplex_pointer_phase_nanos: i64,
    pub duplex_pointer_phase_min_nanos: i64,
    pub duplex_pointer_phase_max_nanos: i64,
    pub duplex_pointer_phase_samples: u64,
    pub linked_phase_attempts: u64,
    pub linked_phase_rebases: u64,
    pub linked_phase_score_nanos: u64,
    pub linked_phase_target_met: bool,
    pub playback_low_watermarks: u64,
    pub pro_deadline_misses: u64,
    pub pro_client_deadline_misses: u64,
    pub pro_core_deadline_misses: u64,
    pub pro_capture_overruns: u64,
    pub pro_playback_blocks: u64,
    pub pro_playback_nonzero_blocks: u64,
    pub shared_underruns: u64,
    pub shared_overruns: u64,
    pub timeline_resets: u64,
    pub periods_processed: u64,
}

/// The larger of two numbers.
pub open spec fn maximum(a: u64, b: u64) -> u64 {
    if b > a {
        b
    } else {
        a
    }
}

/// A minimum as it is kept.
pub open spec fn kept_minimum(value: u64) -> u64 {
    if value == u64::MAX {
        u64::MAX
    } else {
        (value + 1) as u64
    }
}

/// The kept minimum after `value` was recorded.
pub open spec fn lower_minimum(kept: u64, value: u64) -> u64 {
    if kept == 0 || kept_minimum(value) < kept {
        kept_minimum(value)
    } else {
        kept
    }
}

/// The value of a kept minimum; zero when nothing was recorded.
pub open spec fn minimum_value(kept: u64) -> u64 {
    if kept == 0 {
        0
    } else {
        (kept - 1) as u64
    }
}

/// A signed quantity with negative values counted as zero.
pub open spec fn not_below_zero(value: int) -> u64 {
    if value < 0 {
        0
    } else {
        value as u64
    }
}

/// Frames that wait in a playback ring of `buffer` frames of which `available` are free.
pub open spec fn ring_delay(available: i64, buffer: i64) -> u64 {
    let free = if available < buffer {
        available
    } else {
        buffer
    };
    let waiting = buffer - free;
    not_below_zero(
        if waiting > i64::MAX {
            i64::MAX as int
        } else {
            waiting
        },
    )
}

/// The slot that remembers `sequence`.
pub open spec fn timing_slot(sequence: u64) -> int {
    (sequence % 8) as int
}

/// The remembered times after the capture of `sequence` was read at `nanos`.
pub open spec fn recorded_timing(
    timing: [ProTimingSlot; 8],
    sequence: u64,
    nanos: u64,
) -> [ProTimingSlot; 8] {
    choose|later: [ProTimingSlot; 8]|
        later@ == timing@.update(
            timing_slot(sequence),
            ProTimingSlot { sequence, capture_read_nanos: nanos },
        )
}

impl HardwareStats {
    /// The report of a timeline on which nothing was recorded.
    pub open spec fn fresh() -> HardwareStats {
        HardwareStats {
                generation: 0,
                sample_position: 0,
                playback_position: 0,
                capture_position: 0,
                hw_playback_xruns: 0,
                hw_capture_xruns: 0,
                playback_delay_frames: 0,
                capture_delay_frames: 0,
                playback_delay_min_frames: 0,
                playback_delay_max_frames: 0,
                playback_ring_delay_frames: 0,
                playback_ring_delay_min_frames: 0,
                playback_ring_delay_max_frames: 0,
                playback_driver_delay_frames: 0,
                playback_driver_delay_min_frames: 0,
                playback_driver_delay_max_frames: 0,
                capture_delay_min_frames: 0,
                capture_delay_max_frames: 0,
                playback_target_overshoot_max_frames: 0,
                capture_clock_wait_max_nanos: 0,
                pro_wait_budget_min_nanos: 0,
                pro_wait_budget_max_nanos: 0,
                pro_ready_wait_max_nanos: 0,
                playback_write_max_nanos: 0,
                capture_to_playback_write_nanos: 0,
                capture_to_playback_write_min_nanos: 0,
                capture_to_playback_write_max_nanos: 0,
                duplex_pointer_phase_nanos: 0,
                duplex_pointer_phase_min_nanos: 0,
                duplex_pointer_phase_max_nanos: 0,
                duplex_pointer_phase_samples: 0,
                linked_phase_attempts: 0,
                linked_phase_rebases: 0,
                linked_phase_score_nanos: 0,
                linked_phase_target_met: false,
                playback_low_watermarks: 0,
                pro_deadline_misses: 0,
                pro_client_deadline_misses: 0,
                pro_core_deadline_misses: 0,
                pro_capture_overruns: 0,
                pro_playback_blocks: 0,
                pro_playback_nonzero_blocks: 0,
                shared_underruns: 0,
                shared_overruns: 0,
                timeline_resets: 0,
                periods_processed: 0,
        }
    }
}

impl HardwareTimeline {
    /// What the timeline reports.
    pub open spec fn stats(self) -> HardwareStats {
        HardwareStats {
            generation: self.generation,
            sample_position: self.sample_position,
            playback_position: self.playback_position,
            capture_position: self.capture_position,
            hw_playback_xruns: self.playback_xruns,
            hw_capture_xruns: self.capture_xruns,
            playback_delay_frames: self.playback_delay_frames,
            capture_delay_frames: self.capture_delay_frames,
            playback_delay_min_frames: minimum_value(self.playback_delay_min_frames),
            playback_delay_max_frames: self.playback_delay_max_frames,
            playback_ring_delay_frames: self.playback_ring_delay_frames,
            playback_ring_delay_min_frames: minimum_value(self.playback_ring_delay_min_frames),
            playback_ring_delay_max_frames: self.playback_ring_delay_max_frames,
            playback_driver_delay_frames: self.playback_driver_delay_frames,
            playback_driver_delay_min_frames: minimum_value(self.playback_driver_delay_min_frames),
            playback_driver_delay_max_frames: self.playback_driver_delay_max_frames,
            capture_delay_min_frames: minimum_value(self.capture_delay_min_frames),
            capture_delay_max_frames: self.capture_delay_max_frames,
            playback_target_overshoot_max_frames: self.playback_target_overshoot_max_frames,
            capture_clock_wait_max_nanos: self.capture_clock_wait_max_nanos,
            pro_wait_budget_min_nanos: minimum_value(self.pro_wait_budget_min_nanos),
            pro_wait_budget_max_nanos: self.pro_wait_budget_max_nanos,
            pro_ready_wait_max_nanos: self.pro_ready_wait_max_nanos,
            playback_write_max_nanos: self.playback_write_max_nanos,
            capture_to_playback_write_nanos: self.capture_to_playback_write_nanos,
            capture_to_playback_write_min_nanos: minimum_value(self.capture_to_playback_write_min_nanos),
            capture_to_playback_write_max_nanos: self.capture_to_playback_write_max_nanos,
            duplex_pointer_phase_nanos: self.duplex_pointer_phase_nanos,
            duplex_pointer_phase_min_nanos: self.duplex_pointer_phase_min_nanos,
            duplex_pointer_phase_max_nanos: self.duplex_pointer_phase_max_nanos,
            duplex_pointer_phase_samples: self.duplex_pointer_phase_samples,
            linked_phase_attempts: self.linked_phase_attempts,
            linked_phase_rebases: self.linked_phase_rebases,
            linked_phase_score_nanos: self.linked_phase_score_nanos,
            linked_phase_target_met: self.linked_phase_target_met,
            playback_low_watermarks: self.playback_low_watermarks,
            pro_deadline_misses: self.pro_deadline_misses,
            pro_client_deadline_misses: self.pro_client_deadline_misses,
            pro_core_deadline_misses: self.pro_core_deadline_misses,
            pro_capture_overruns: self.pro_capture_overruns,
            pro_playback_blocks: self.pro_playback_blocks,
            pro_playback_nonzero_blocks: self.pro_playback_nonzero_blocks,
            shared_underruns: self.shared_underruns,
            shared_overruns: self.shared_overruns,
            timeline_resets: self.timeline_resets,
            periods_processed: self.periods_processed,
        }
    }

    /// Nothing was recorded: every counter is zero, no minimum is kept, and no captured period is
    /// known.
    pub open spec fn nothing_recorded(self) -> bool {
        &&& self.stats() == HardwareStats::fresh()
        &&& self.playback_delay_min_frames == 0
        &&& self.playback_ring_delay_min_frames == 0
        &&& self.playback_driver_delay_min_frames == 0
        &&& self.capture_delay_min_frames == 0
        &&& self.pro_wait_budget_min_nanos == 0
        &&& self.capture_to_playback_write_min_nanos == 0
        &&& forall|i: int|
            0 <= i < 8 ==> #[trigger] self.pro_timing@[i] == (ProTimingSlot {
                sequence: 0,
                capture_read_nanos: 0,
            })
    }

    /// The timeline after one stretch of playback and capture.
    pub open spec fn with_processed(self, frames: u64, periods: u64) -> HardwareTimeline {
        HardwareTimeline {
            sample_position: self.sample_position.wrapping_add(frames),
            periods_processed: self.periods_processed.wrapping_add(periods),
            ..self
        }
    }

    /// The timeline after a delay was observed.
    pub open spec fn with_pcm_delay(
        self,
        direction: StreamDirection,
        delay_frames: i64,
        period_frames: u64,
    ) -> HardwareTimeline {
        let delay = not_below_zero(delay_frames as int);
        match direction {
            StreamDirection::Playback => HardwareTimeline {
                playback_delay_frames: delay,
                playback_delay_min_frames: lower_minimum(self.playback_delay_min_frames, delay),
                playback_delay_max_frames: maximum(self.playback_delay_max_frames, delay),
                playback_low_watermarks: if delay < period_frames {
                    self.playback_low_watermarks.wrapping_add(1)
                } else {
                    self.playback_low_watermarks
                },
                ..self
            },
            StreamDirection::Capture => HardwareTimeline {
                capture_delay_frames: delay,
                capture_delay_min_frames: lower_minimum(self.capture_delay_min_frames, delay),
                capture_delay_max_frames: maximum(self.capture_delay_max_frames, delay),
                ..self
            },
        }
    }

    /// The timeline after the playback delay was split into ring and driver.
    pub open spec fn with_delay_breakdown(
        self,
        total_delay: i64,
        available: i64,
        buffer: i64,
    ) -> HardwareTimeline {
        let ring = ring_delay(available, buffer);
        let driver = not_below_zero(not_below_zero(total_delay as int) - ring);
        HardwareTimeline {
            playback_ring_delay_frames: ring,
            playback_ring_delay_min_frames: lower_minimum(
                self.playback_ring_delay_min_frames,
                ring,
            ),
            playback_ring_delay_max_frames: maximum(self.playback_ring_delay_max_frames, ring),
            playback_driver_delay_frames: driver,
            playback_driver_delay_min_frames: lower_minimum(
                self.playback_driver_delay_min_frames,
                driver,
            ),
            playback_driver_delay_max_frames: maximum(
                self.playback_driver_delay_max_frames,
                driver,
            ),
            ..self
        }
    }

    /// The timeline after a client budget was granted.
    pub open spec fn with_wait_budget(self, nanos: u64) -> HardwareTimeline {
        HardwareTimeline {
            pro_wait_budget_min_nanos: lower_minimum(self.pro_wait_budget_min_nanos, nanos),
            pro_wait_budget_max_nanos: maximum(self.pro_wait_budget_max_nanos, nanos),
            ..self
        }
    }

    /// The timeline after a playback write took `nanos`.
    pub open spec fn with_write_time(self, nanos: u64) -> HardwareTimeline {
        HardwareTimeline {
            playback_write_max_nanos: maximum(self.playback_write_max_nanos, nanos),
            ..self
        }
    }

    /// The timeline after playback came `frames` past its target.
    pub open spec fn with_target_overshoot(self, frames: u64) -> HardwareTimeline {
        HardwareTimeline {
            playback_target_overshoot_max_frames: maximum(
                self.playback_target_overshoot_max_frames,
                frames,
            ),
            ..self
        }
    }

    /// The timeline after a phase between the two hardware pointers was observed.
    pub open spec fn with_pointer_phase(self, nanos: i64) -> HardwareTimeline {
        HardwareTimeline {
            duplex_pointer_phase_nanos: nanos,
            duplex_pointer_phase_min_nanos: if self.duplex_pointer_phase_samples == 0 || nanos
                < self.duplex_pointer_phase_min_nanos {
                nanos
            } else {
                self.duplex_pointer_phase_min_nanos
            },
            duplex_pointer_phase_max_nanos: if self.duplex_pointer_phase_samples == 0 || nanos
                > self.duplex_pointer_phase_max_nanos {
                nanos
            } else {
                self.duplex_pointer_phase_max_nanos
            },
            duplex_pointer_phase_samples: self.duplex_pointer_phase_samples.wrapping_add(1),
            ..self
        }
    }

    /// The timeline after a calibration result was published.
    pub open spec fn with_calibration(
        self,
        attempts: u64,
        score_nanos: u64,
        target_met: bool,
    ) -> HardwareTimeline {
        HardwareTimeline {
            linked_phase_attempts: attempts,
            linked_phase_score_nanos: score_nanos,
            linked_phase_target_met: target_met,
            ..self
        }
    }

    /// The time from reading the capture of `sequence` to `nanos`, when that reading is
    /// remembered and lies not after `nanos`.
    pub open spec fn elapsed_since_capture(self, sequence: u64, nanos: u64) -> Option<u64> {
        let slot = self.pro_timing@[timing_slot(sequence)];
        if slot.sequence == sequence && slot.capture_read_nanos != 0 && nanos
            >= slot.capture_read_nanos {
            Some((nanos - slot.capture_read_nanos) as u64)
        } else {
            None
        }
    }

    /// The timeline after the playback of `sequence` was written at `nanos`.
    pub open spec fn with_playback_write(self, sequence: u64, nanos: u64) -> HardwareTimeline {
        match self.elapsed_since_capture(sequence, nanos) {
            Some(duration) => HardwareTimeline {
                capture_to_playback_write_nanos: duration,
                capture_to_playback_write_min_nanos: lower_minimum(
                    self.capture_to_playback_write_min_nanos,
                    duration,
                ),
                capture_to_playback_write_max_nanos: maximum(
                    self.capture_to_playback_write_max_nanos,
                    duration,
                ),
                ..self
            },
            None => self,
        }
    }

    /// `later` is this timeline after the capture of `sequence` was read at `nanos`.
    pub open spec fn capture_read_at(
        self,
        later: HardwareTimeline,
        sequence: u64,
        nanos: u64,
    ) -> bool {
        &&& later.pro_timing@ == self.pro_timing@.update(
            timing_slot(sequence),
            ProTimingSlot { sequence, capture_read_nanos: nanos },
        )
        &&& later == HardwareTimeline { pro_timing: later.pro_timing, ..self }
    }

    /// The timeline after the capture of `sequence` was read at `nanos`.
    pub open spec fn with_capture_read(self, sequence: u64, nanos: u64) -> HardwareTimeline {
        HardwareTimeline { pro_timing: recorded_timing(self.pro_timing, sequence, nanos), ..self }
    }

    /// The timeline after a client missed its deadline.
    pub open spec fn with_client_miss(self) -> HardwareTimeline {
        HardwareTimeline {
            pro_deadline_misses: self.pro_deadline_misses.wrapping_add(1),
            pro_client_deadline_misses: self.pro_client_deadline_misses.wrapping_add(1),
            ..self
        }
    }

    /// The timeline after the engine left no time for the client.
    pub open spec fn with_core_miss(self) -> HardwareTimeline {
        HardwareTimeline {
            pro_deadline_misses: self.pro_deadline_misses.wrapping_add(1),
            pro_core_deadline_misses: self.pro_core_deadline_misses.wrapping_add(1),
            ..self
        }
    }

    /// The timeline after a PRO playback block was played.
    pub open spec fn with_playback_block(self, nonzero: bool) -> HardwareTimeline {
        HardwareTimeline {
            pro_playback_blocks: self.pro_playback_blocks.wrapping_add(1),
            pro_playback_nonzero_blocks: if nonzero {
                self.pro_playback_nonzero_blocks.wrapping_add(1)
            } else {
                self.pro_playback_nonzero_blocks
            },
            ..self
        }
    }

    pub open spec fn with_capture_overrun(self) -> HardwareTimeline {
        HardwareTimeline {
            pro_capture_overruns: self.pro_capture_overruns.wrapping_add(1),
            ..self
        }
    }

    pub open spec fn with_shared_underrun(self) -> HardwareTimeline {
        HardwareTimeline { shared_underruns: self.shared_underruns.wrapping_add(1), ..self }
    }

    pub open spec fn with_shared_overrun(self) -> HardwareTimeline {
        HardwareTimeline { shared_overruns: self.shared_overruns.wrapping_add(1), ..self }
    }

    pub open spec fn with_ready_wait(self, nanos: u64) -> HardwareTimeline {
        HardwareTimeline {
            pro_ready_wait_max_nanos: maximum(self.pro_ready_wait_max_nanos, nanos),
            ..self
        }
    }

    /// The timeline after the hardware lost data in one direction.
    pub open spec fn with_xrun(self, direction: StreamDirection) -> HardwareTimeline {
        match direction {
            StreamDirection::Playback => HardwareTimeline {
                playback_xruns: self.playback_xruns.wrapping_add(1),
                ..self
            },
            StreamDirection::Capture => HardwareTimeline {
                capture_xruns: self.capture_xruns.wrapping_add(1),
                ..self
            },
        }
    }

    /// The timeline after the streams were started anew: a new generation, and no calibration.
    pub open spec fn with_restart(self) -> HardwareTimeline {
        HardwareTimeline {
            generation: self.generation.wrapping_add(1),
            timeline_resets: self.timeline_resets.wrapping_add(1),
            linked_phase_attempts: 0,
            linked_phase_score_nanos: 0,
            linked_phase_target_met: false,
            ..self
        }
    }

    /// The timeline after the streams were started anew to move their phase.
    pub open spec fn with_rebase(self) -> HardwareTimeline {
        HardwareTimeline {
            generation: self.generation.wrapping_add(1),
            timeline_resets: self.timeline_resets.wrapping_add(1),
            linked_phase_rebases: self.linked_phase_rebases.wrapping_add(1),
            ..self
        }
    }

    pub fn generation(&self) -> (generation: u64)
        ensures
            generation == self.generation,
    {
        self.generation
    }

    /// Reports every counter.
    pub fn snapshot(&self) -> (stats: HardwareStats)
        ensures
            stats == self.stats(),
            stats.generation == self.generation,
            stats.sample_position == self.sample_position,
            stats.playback_position == self.playback_position,
            stats.capture_position == self.capture_position,
            stats.hw_playback_xruns == self.playback_xruns,
            stats.hw_capture_xruns == self.capture_xruns,
            stats.playback_delay_frames == self.playback_delay_frames,
            stats.capture_delay_frames == self.capture_delay_frames,
            stats.playback_delay_min_frames == if self.playback_delay_min_frames == 0 {
                0
            } else {
                self.playback_delay_min_frames - 1
            },
            stats.playback_delay_max_frames == self.playback_delay_max_frames,
            stats.playback_ring_delay_frames == self.playback_ring_delay_frames,
            stats.playback_ring_delay_min_frames == if self.playback_ring_delay_min_frames == 0 {
                0
            } else {
                self.playback_ring_delay_min_frames - 1
            },
            stats.playback_ring_delay_max_frames == self.playback_ring_delay_max_frames,
            stats.playback_driver_delay_frames == self.playback_driver_delay_frames,
            stats.playback_driver_delay_min_frames == if self.playback_driver_delay_min_frames == 0 {
                0
            } else {
                self.playback_driver_delay_min_frames - 1
            },
            stats.playback_driver_delay_max_frames == self.playback_driver_delay_max_frames,
            stats.capture_delay_min_frames == if self.capture_delay_min_frames == 0 {
                0
            } else {
                self.capture_delay_min_frames - 1
            },
            stats.capture_delay_max_frames == self.capture_delay_max_frames,
            stats.playback_target_overshoot_max_frames == self.playback_target_overshoot_max_frames,
            stats.capture_clock_wait_max_nanos == self.capture_clock_wait_max_nanos,
            stats.pro_wait_budget_min_nanos == if self.pro_wait_budget_min_nanos == 0 {
                0
            } else {
                self.pro_wait_budget_min_nanos - 1
            },
            stats.pro_wait_budget_max_nanos == self.pro_wait_budget_max_nanos,
            stats.pro_ready_wait_max_nanos == self.pro_ready_wait_max_nanos,
            stats.playback_write_max_nanos == self.playback_write_max_nanos,
            stats.capture_to_playback_write_nanos == self.capture_to_playback_write_nanos,
            stats.capture_to_playback_write_min_nanos == if self.capture_to_playback_write_min_nanos == 0 {
                0
            } else {
                self.capture_to_playback_write_min_nanos - 1
            },
            stats.capture_to_playback_write_max_nanos == self.capture_to_playback_write_max_nanos,
            stats.duplex_pointer_phase_nanos == self.duplex_pointer_phase_nanos,
            stats.duplex_pointer_phase_min_nanos == self.duplex_pointer_phase_min_nanos,
            stats.duplex_pointer_phase_max_nanos == self.duplex_pointer_phase_max_nanos,
            stats.duplex_pointer_phase_samples == self.duplex_pointer_phase_samples,
            stats.linked_phase_attempts == self.linked_phase_attempts,
            stats.linked_phase_rebases == self.linked_phase_rebases,
            stats.linked_phase_score_nanos == self.linked_phase_score_nanos,
            stats.linked_phase_target_met == self.linked_phase_target_met,
            stats.playback_low_watermarks == self.playback_low_watermarks,
            stats.pro_deadline_misses == self.pro_deadline_misses,
            stats.pro_client_deadline_misses == self.pro_client_deadline_misses,
            stats.pro_core_deadline_misses == self.pro_core_deadline_misses,
            stats.pro_capture_overruns == self.pro_capture_overruns,
            stats.pro_playback_blocks == self.pro_playback_blocks,
            stats.pro_playback_nonzero_blocks == self.pro_playback_nonzero_blocks,
            stats.shared_underruns == self.shared_underruns,
            stats.shared_overruns == self.shared_overruns,
            stats.timeline_resets == self.timeline_resets,
            stats.periods_processed == self.periods_processed,
    {
        HardwareStats {
            generation: self.generation,
            sample_position: self.sample_position,
            playback_position: self.playback_position,
            capture_position: self.capture_position,
            hw_playback_xruns: self.playback_xruns,
            hw_capture_xruns: self.capture_xruns,
            playback_delay_frames: self.playback_delay_frames,
            capture_delay_frames: self.capture_delay_frames,
            playback_delay_min_frames: decode_minimum(self.playback_delay_min_frames),
            playback_delay_max_frames: self.playback_delay_max_frames,
            playback_ring_delay_frames: self.playback_ring_delay_frames,
            playback_ring_delay_min_frames: decode_minimum(self.playback_ring_delay_min_frames),
            playback_ring_delay_max_frames: self.playback_ring_delay_max_frames,
            playback_driver_delay_frames: self.playback_driver_delay_frames,
            playback_driver_delay_min_frames: decode_minimum(self.playback_driver_delay_min_frames),
            playback_driver_delay_max_frames: self.playback_driver_delay_max_frames,
            capture_delay_min_frames: decode_minimum(self.capture_delay_min_frames),
            capture_delay_max_frames: self.capture_delay_max_frames,
            playback_target_overshoot_max_frames: self.playback_target_overshoot_max_frames,
            capture_clock_wait_max_nanos: self.capture_clock_wait_max_nanos,
            pro_wait_budget_min_nanos: decode_minimum(self.pro_wait_budget_min_nanos),
            pro_wait_budget_max_nanos: self.pro_wait_budget_max_nanos,
            pro_ready_wait_max_nanos: self.pro_ready_wait_max_nanos,
            playback_write_max_nanos: self.playback_write_max_nanos,
            capture_to_playback_write_nanos: self.capture_to_playback_write_nanos,
            capture_to_playback_write_min_nanos: decode_minimum(self.capture_to_playback_write_min_nanos),
            capture_to_playback_write_max_nanos: self.capture_to_playback_write_max_nanos,
            duplex_pointer_phase_nanos: self.duplex_pointer_phase_nanos,
            duplex_pointer_phase_min_nanos: self.duplex_pointer_phase_min_nanos,
            duplex_pointer_phase_max_nanos: self.duplex_pointer_phase_max_nanos,
            duplex_pointer_phase_samples: self.duplex_pointer_phase_samples,
            linked_phase_attempts: self.linked_phase_attempts,
            linked_phase_rebases: self.linked_phase_rebases,
            linked_phase_score_nanos: self.linked_phase_score_nanos,
            linked_phase_target_met: self.linked_phase_target_met,
            playback_low_watermarks: self.playback_low_watermarks,
            pro_deadline_misses: self.pro_deadline_misses,
            pro_client_deadline_misses: self.pro_client_deadline_misses,
            pro_core_deadline_misses: self.pro_core_deadline_misses,
            pro_capture_overruns: self.pro_capture_overruns,
            pro_playback_blocks: self.pro_playback_blocks,
            pro_playback_nonzero_blocks: self.pro_playback_nonzero_blocks,
            shared_underruns: self.shared_underruns,
            shared_overruns: self.shared_overruns,
            timeline_resets: self.timeline_resets,
            periods_processed: self.periods_processed,
        }
    }

    pub fn update_playback_position(&mut self, playback_position: u64)
        ensures
            *final(self) == (HardwareTimeline { playback_position, ..*old(self) }),
    {
        self.playback_position = playback_position;
    }

    pub fn update_capture_position(&mut self, capture_position: u64)
        ensures
            *final(self) == (HardwareTimeline { capture_position, ..*old(self) }),
    {
        self.capture_position = capture_position;
    }

    pub fn processed_frames(&mut self, frames: u64, periods: u64)
        ensures
            *final(self) == old(self).with_processed(frames, periods),
    {
        self.sample_position = self.sample_position.wrapping_add(frames);
        self.periods_processed = self.periods_processed.wrapping_add(periods);
    }

    pub fn update_pcm_delay(
        &mut self,
        direction: StreamDirection,
        delay_frames: i64,
        period_frames: u64,
    )
        ensures
            *final(self) == old(self).with_pcm_delay(direction, delay_frames, period_frames),
    {
        let delay: u64 = if delay_frames < 0 {
            0
        } else {
            delay_frames as u64
        };
        match direction {
            StreamDirection::Playback => {
                self.playback_delay_frames = delay;
                update_minimum(&mut self.playback_delay_min_frames, delay);
                update_maximum(&mut self.playback_delay_max_frames, delay);
                if delay < period_frames {
                    self.playback_low_watermarks = self.playback_low_watermarks.wrapping_add(1);
                }
            },
            StreamDirection::Capture => {
                self.capture_delay_frames = delay;
                update_minimum(&mut self.capture_delay_min_frames, delay);
                update_maximum(&mut self.capture_delay_max_frames, delay);
            },
        }
    }

    pub fn record_playback_target_overshoot(&mut self, frames: u64)
        ensures
            *final(self) == old(self).with_target_overshoot(frames),
    {
        update_maximum(&mut self.playback_target_overshoot_max_frames, frames);
    }

    pub fn update_playback_delay_breakdown(
        &mut self,
        total_delay: i64,
        available: i64,
        buffer: i64,
    )
        ensures
            *final(self) == old(self).with_delay_breakdown(total_delay, available, buffer),
    {
        let free: i64 = if available < buffer {
            available
        } else {
            buffer
        };
        let waiting: i64 = match buffer.checked_sub(free) {
            Some(frames) => frames,
            None => i64::MAX,
        };
        let ring: u64 = if waiting < 0 {
            0
        } else {
            waiting as u64
        };
        let total: u64 = if total_delay < 0 {
            0
        } else {
            total_delay as u64
        };
        let driver: u64 = total.saturating_sub(ring);
        self.playback_ring_delay_frames = ring;
        update_minimum(&mut self.playback_ring_delay_min_frames, ring);
        update_maximum(&mut self.playback_ring_delay_max_frames, ring);
        self.playback_driver_delay_frames = driver;
        update_minimum(&mut self.playback_driver_delay_min_frames, driver);
        update_maximum(&mut self.playback_driver_delay_max_frames, driver);
    }

    pub fn record_pro_wait_budget(&mut self, nanos: u64)
        ensures
            *final(self) == old(self).with_wait_budget(nanos),
    {
        update_minimum(&mut self.pro_wait_budget_min_nanos, nanos);
        update_maximum(&mut self.pro_wait_budget_max_nanos, nanos);
    }

    pub fn record_pro_ready_wait(&mut self, nanos: u64)
        ensures
            *final(self) == old(self).with_ready_wait(nanos),
    {
        update_maximum(&mut self.pro_ready_wait_max_nanos, nanos);
    }

    pub fn record_playback_write(&mut self, nanos: u64)
        ensures
            *final(self) == old(self).with_write_time(nanos),
    {
        update_maximum(&mut self.playback_write_max_nanos, nanos);
    }

    pub fn record_duplex_pointer_phase(&mut self, nanos: i64)
        ensures
            *final(self) == old(self).with_pointer_phase(nanos),
    {
        let first: bool = self.duplex_pointer_phase_samples == 0;
        self.duplex_pointer_phase_nanos = nanos;
        if first || nanos < self.duplex_pointer_phase_min_nanos {
            self.duplex_pointer_phase_min_nanos = nanos;
        }
        if first || nanos > self.duplex_pointer_phase_max_nanos {
            self.duplex_pointer_phase_max_nanos = nanos;
        }
        self.duplex_pointer_phase_samples = self.duplex_pointer_phase_samples.wrapping_add(1);
    }

    pub fn record_linked_phase_calibration(
        &mut self,
        attempts: u64,
        score_nanos: u64,
        target_met: bool,
    )
        ensures
            *final(self) == old(self).with_calibration(attempts, score_nanos, target_met),
    {
        self.linked_phase_attempts = attempts;
        self.linked_phase_score_nanos = score_nanos;
        self.linked_phase_target_met = target_met;
    }

    pub fn record_pro_capture_read(&mut self, sequence: u64, nanos: u64)
        ensures
            old(self).capture_read_at(*final(self), sequence, nanos),
            *final(self) == old(self).with_capture_read(sequence, nanos),
    {
        let slot: usize = (sequence % 8) as usize;
        self.pro_timing[slot] = ProTimingSlot { sequence, capture_read_nanos: nanos };
        proof {
            lemma_capture_read_is_unique(*old(self), *self, sequence, nanos);
        }
    }

    /// The time from reading the capture of `sequence` to `nanos`, if it is known.
    pub fn pro_capture_elapsed_nanos(&self, sequence: u64, nanos: u64) -> (elapsed: Option<u64>)
        ensures
            elapsed == self.elapsed_since_capture(sequence, nanos),
    {
        let slot = self.pro_timing[(sequence % 8) as usize];
        if slot.sequence != sequence || slot.capture_read_nanos == 0 || nanos
            < slot.capture_read_nanos {
            None
        } else {
            Some(nanos - slot.capture_read_nanos)
        }
    }

    pub fn record_pro_playback_write(&mut self, sequence: u64, nanos: u64)
        ensures
            *final(self) == old(self).with_playback_write(sequence, nanos),
    {
        if let Some(duration) = self.pro_capture_elapsed_nanos(sequence, nanos) {
            self.capture_to_playback_write_nanos = duration;
            update_minimum(&mut self.capture_to_playback_write_min_nanos, duration);
            update_maximum(&mut self.capture_to_playback_write_max_nanos, duration);
        }
    }

    pub fn record_pro_deadline_miss(&mut self)
        ensures
            *final(self) == old(self).with_client_miss(),
    {
        self.pro_deadline_misses = self.pro_deadline_misses.wrapping_add(1);
        self.pro_client_deadline_misses = self.pro_client_deadline_misses.wrapping_add(1);
    }

    pub fn record_pro_core_deadline_miss(&mut self)
        ensures
            *final(self) == old(self).with_core_miss(),
    {
        self.pro_deadline_misses = self.pro_deadline_misses.wrapping_add(1);
        self.pro_core_deadline_misses = self.pro_core_deadline_misses.wrapping_add(1);
    }

    pub fn record_pro_capture_overrun(&mut self)
        ensures
            *final(self) == old(self).with_capture_overrun(),
    {
        self.pro_capture_overruns = self.pro_capture_overruns.wrapping_add(1);
    }

    pub fn record_pro_playback_block(&mut self, nonzero: bool)
        ensures
            *final(self) == old(self).with_playback_block(nonzero),
    {
        self.pro_playback_blocks = self.pro_playback_blocks.wrapping_add(1);
        if nonzero {
            self.pro_playback_nonzero_blocks = self.pro_playback_nonzero_blocks.wrapping_add(1);
        }
    }

    pub fn record_shared_underrun(&mut self)
        ensures
            *final(self) == old(self).with_shared_underrun(),
    {
        self.shared_underruns = self.shared_underruns.wrapping_add(1);
    }

    pub fn record_shared_overrun(&mut self)
        ensures
            *final(self) == old(self).with_shared_overrun(),
    {
        self.shared_overruns = self.shared_overruns.wrapping_add(1);
    }

    pub fn record_hardware_xrun(&mut self, direction: StreamDirection)
        ensures
            *final(self) == old(self).with_xrun(direction),
    {
        match direction {
            StreamDirection::Playback => {
                self.playback_xruns = self.playback_xruns.wrapping_add(1);
            },
            StreamDirection::Capture => {
                self.capture_xruns = self.capture_xruns.wrapping_add(1);
            },
        }
    }

    pub fn reset_after_hardware_xrun(&mut self)
        ensures
            *final(self) == old(self).with_restart(),
    {
        self.reset_after_hardware_restart();
    }

    pub fn reset_after_hardware_restart(&mut self)
        ensures
            *final(self) == old(self).with_restart(),
    {
        self.generation = self.generation.wrapping_add(1);
        self.timeline_resets = self.timeline_resets.wrapping_add(1);
        self.record_linked_phase_calibration(0, 0, false);
    }

    pub fn reset_after_hardware_rebase(&mut self)
        ensures
            *final(self) == old(self).with_rebase(),
    {
        self.generation = self.generation.wrapping_add(1);
        self.timeline_resets = self.timeline_resets.wrapping_add(1);
        self.linked_phase_rebases = self.linked_phase_rebases.wrapping_add(1);
    }
}

impl Default for HardwareTimeline {
    /// A timeline on which nothing was recorded.
    fn default() -> (timeline: Self)
        ensures
            timeline.nothing_recorded(),
    {
        HardwareTimeline {
            generation: 0,
            sample_position: 0,
            playback_position: 0,
            capture_position: 0,
            playback_xruns: 0,
            capture_xruns: 0,
            playback_delay_frames: 0,
            capture_delay_frames: 0,
            playback_delay_min_frames: 0,
            playback_delay_max_frames: 0,
            playback_ring_delay_frames: 0,
            playback_ring_delay_min_frames: 0,
            playback_ring_delay_max_frames: 0,
            playback_driver_delay_frames: 0,
            playback_driver_delay_min_frames: 0,
            playback_driver_delay_max_frames: 0,
            capture_delay_min_frames: 0,
            capture_delay_max_frames: 0,
            playback_target_overshoot_max_frames: 0,
            capture_clock_wait_max_nanos: 0,
            pro_wait_budget_min_nanos: 0,
            pro_wait_budget_max_nanos: 0,
            pro_ready_wait_max_nanos: 0,
            playback_write_max_nanos: 0,
            capture_to_playback_write_nanos: 0,
            capture_to_playback_write_min_nanos: 0,
            capture_to_playback_write_max_nanos: 0,
            duplex_pointer_phase_nanos: 0,
            duplex_pointer_phase_min_nanos: 0,
            duplex_pointer_phase_max_nanos: 0,
            duplex_pointer_phase_samples: 0,
            linked_phase_attempts: 0,
            linked_phase_rebases: 0,
            linked_phase_score_nanos: 0,
            linked_phase_target_met: false,
            playback_low_watermarks: 0,
            pro_deadline_misses: 0,
            pro_client_deadline_misses: 0,
            pro_core_deadline_misses: 0,
            pro_capture_overruns: 0,
            pro_playback_blocks: 0,
            pro_playback_nonzero_blocks: 0,
            shared_underruns: 0,
            shared_overruns: 0,
            timeline_resets: 0,
            periods_processed: 0,
            pro_timing: [ProTimingSlot { sequence: 0, capture_read_nanos: 0 }; 8],
        }
    }
}

fn update_minimum(kept: &mut u64, value: u64)
    ensures
        *final(kept) == lower_minimum(*old(kept), value),
{
    let encoded: u64 = value.saturating_add(1);
    if *kept == 0 || encoded < *kept {
        *kept = encoded;
    }
}

fn update_maximum(kept: &mut u64, value: u64)
    ensures
        *final(kept) == maximum(*old(kept), value),
{
    if value > *kept {
        *kept = value;
    }
}

fn decode_minimum(kept: u64) -> (value: u64)
    ensures
        value == minimum_value(kept),
{
    kept.saturating_sub(1)
}

/// The parts of a timeline that only hardware events may change.
pub open spec fn same_hardware_history(a: HardwareTimeline, b: HardwareTimeline) -> bool {
    &&& a.generation == b.generation
    &&& a.timeline_resets == b.timeline_resets
    &&& a.playback_xruns == b.playback_xruns
    &&& a.capture_xruns == b.capture_xruns
}

/// What clients do or fail to do is never a hardware event: deadline misses, overruns, underruns
/// and played blocks change neither the generation nor any XRUN count.
pub proof fn client_events_are_not_hardware_events(
    timeline: HardwareTimeline,
    nanos: u64,
    nonzero: bool,
)
    ensures
        same_hardware_history(timeline, timeline.with_client_miss()),
        same_hardware_history(timeline, timeline.with_core_miss()),
        same_hardware_history(timeline, timeline.with_capture_overrun()),
        same_hardware_history(timeline, timeline.with_shared_underrun()),
        same_hardware_history(timeline, timeline.with_shared_overrun()),
        same_hardware_history(timeline, timeline.with_playback_block(nonzero)),
        same_hardware_history(timeline, timeline.with_ready_wait(nanos)),
        same_hardware_history(timeline, timeline.with_wait_budget(nanos)),
{
}

/// An XRUN is counted when it happens; the generation moves only once the streams run again.
pub proof fn xrun_alone_publishes_no_reset(timeline: HardwareTimeline, direction: StreamDirection)
    ensures
        timeline.with_xrun(direction).generation == timeline.generation,
        timeline.with_xrun(direction).timeline_resets == timeline.timeline_resets,
{
}

/// Every restart and every rebase is one new generation and one reset, counts no XRUN, and keeps
/// the sample position; a restart drops the calibration result, a rebase keeps it.
pub proof fn each_restart_is_one_generation(timeline: HardwareTimeline)
    ensures
        timeline.with_restart().generation == timeline.generation.wrapping_add(1),
        timeline.with_restart().timeline_resets == timeline.timeline_resets.wrapping_add(1),
        timeline.with_restart().playback_xruns == timeline.playback_xruns,
        timeline.with_restart().capture_xruns == timeline.capture_xruns,
        timeline.with_restart().sample_position == timeline.sample_position,
        timeline.with_restart().linked_phase_score_nanos == 0,
        !timeline.with_restart().linked_phase_target_met,
        timeline.with_rebase().generation == timeline.generation.wrapping_add(1),
        timeline.with_rebase().timeline_resets == timeline.timeline_resets.wrapping_add(1),
        timeline.with_rebase().playback_xruns == timeline.playback_xruns,
        timeline.with_rebase().capture_xruns == timeline.capture_xruns,
        timeline.with_rebase().sample_position == timeline.sample_position,
        timeline.with_rebase().linked_phase_score_nanos == timeline.linked_phase_score_nanos,
{
}

/// The sample position only grows: no restart takes it back, and every processed period adds its
/// frames until the counter wraps.
pub proof fn sample_position_is_monotonic(timeline: HardwareTimeline, frames: u64, periods: u64)
    requires
        timeline.sample_position + frames <= u64::MAX,
    ensures
        timeline.with_restart().with_processed(frames, periods).sample_position
            == timeline.sample_position + frames,
        timeline.with_rebase().with_processed(frames, periods).sample_position
            == timeline.sample_position + frames,
{
}

/// A reported minimum is a recorded value below which nothing was recorded, and it never exceeds
/// the reported maximum. The one value that cannot be kept exactly is the largest of all.
pub proof fn minimum_and_maximum_bound_every_value(kept_min: u64, kept_max: u64, value: u64)
    requires
        value < u64::MAX,
        kept_min == 0 ==> kept_max == 0,
        kept_min != 0 ==> minimum_value(kept_min) <= kept_max,
    ensures
        minimum_value(lower_minimum(kept_min, value)) <= value <= maximum(kept_max, value),
        kept_min != 0 ==> minimum_value(lower_minimum(kept_min, value)) <= minimum_value(kept_min),
        lower_minimum(kept_min, value) != 0,
        minimum_value(lower_minimum(kept_min, value)) == value || lower_minimum(kept_min, value)
            == kept_min,
        minimum_value(lower_minimum(kept_min, value)) <= maximum(kept_max, value),
{
}

/// Reading a capture has one outcome.
pub proof fn lemma_capture_read_is_unique(
    before: HardwareTimeline,
    after: HardwareTimeline,
    sequence: u64,
    nanos: u64,
)
    requires
        before.capture_read_at(after, sequence, nanos),
    ensures
        after == before.with_capture_read(sequence, nanos),
{
    let other = recorded_timing(before.pro_timing, sequence, nanos);
    assert(other@ == after.pro_timing@);
    assert(after.pro_timing =~= other);
}

/// A capture that was read is remembered in its slot, and no other slot is touched.
pub proof fn lemma_capture_is_remembered(timing: [ProTimingSlot; 8], sequence: u64, nanos: u64)
    ensures
        recorded_timing(timing, sequence, nanos)@ == timing@.update(
            timing_slot(sequence),
            ProTimingSlot { sequence, capture_read_nanos: nanos },
        ),
{
    let slot = ProTimingSlot { sequence, capture_read_nanos: nanos };
    let witness = vstd::array::spec_array_update(timing, timing_slot(sequence), slot);
    assert(witness@ == timing@.update(timing_slot(sequence), slot));
}

/// The write time of a sequence is measured against the capture of exactly that sequence: after
/// the capture of `sequence` was read, writing it gives the difference of the two times.
pub proof fn write_is_matched_to_its_capture(
    before: HardwareTimeline,
    after: HardwareTimeline,
    sequence: u64,
    read_nanos: u64,
    write_nanos: u64,
    other: u64,
)
    requires
        before.capture_read_at(after, sequence, read_nanos),
        0 < read_nanos <= write_nanos,
        other != sequence,
        timing_slot(other) == timing_slot(sequence),
    ensures
        after.with_playback_write(sequence, write_nanos).capture_to_playback_write_nanos
            == write_nanos - read_nanos,
        after.with_playback_write(other, write_nanos) == after,
{
}

/// One thing that is recorded on a timeline.
pub enum TimelineStep {
    PlaybackPosition { position: u64 },
    CapturePosition { position: u64 },
    Processed { frames: u64, periods: u64 },
    PcmDelay { direction: StreamDirection, delay_frames: i64, period_frames: u64 },
    DelayBreakdown { total_delay: i64, available: i64, buffer: i64 },
    TargetOvershoot { frames: u64 },
    WaitBudget { nanos: u64 },
    ReadyWait { nanos: u64 },
    WriteTime { nanos: u64 },
    PointerPhase { nanos: i64 },
    Calibration { attempts: u64, score_nanos: u64, target_met: bool },
    CaptureRead { sequence: u64, nanos: u64 },
    PlaybackWrite { sequence: u64, nanos: u64 },
    ClientMiss,
    CoreMiss,
    CaptureOverrun,
    PlaybackBlock { nonzero: bool },
    SharedUnderrun,
    SharedOverrun,
    Xrun { direction: StreamDirection },
    Restart,
    Rebase,
}

impl HardwareTimeline {
    /// The timeline after one more thing was recorded.
    pub open spec fn after_step(self, step: TimelineStep) -> HardwareTimeline {
        match step {
            TimelineStep::PlaybackPosition { position } => HardwareTimeline {
                playback_position: position,
                ..self
            },
            TimelineStep::CapturePosition { position } => HardwareTimeline {
                capture_position: position,
                ..self
            },
            TimelineStep::Processed { frames, periods } => self.with_processed(frames, periods),
            TimelineStep::PcmDelay { direction, delay_frames, period_frames } =>
                self.with_pcm_delay(direction, delay_frames, period_frames),
            TimelineStep::DelayBreakdown { total_delay, available, buffer } =>
                self.with_delay_breakdown(total_delay, available, buffer),
            TimelineStep::TargetOvershoot { frames } => self.with_target_overshoot(frames),
            TimelineStep::WaitBudget { nanos } => self.with_wait_budget(nanos),
            TimelineStep::ReadyWait { nanos } => self.with_ready_wait(nanos),
            TimelineStep::WriteTime { nanos } => self.with_write_time(nanos),
            TimelineStep::PointerPhase { nanos } => self.with_pointer_phase(nanos),
            TimelineStep::Calibration { attempts, score_nanos, target_met } =>
                self.with_calibration(attempts, score_nanos, target_met),
            TimelineStep::CaptureRead { sequence, nanos } =>
                self.with_capture_read(sequence, nanos),
            TimelineStep::PlaybackWrite { sequence, nanos } =>
                self.with_playback_write(sequence, nanos),
            TimelineStep::ClientMiss => self.with_client_miss(),
            TimelineStep::CoreMiss => self.with_core_miss(),
            TimelineStep::CaptureOverrun => self.with_capture_overrun(),
            TimelineStep::PlaybackBlock { nonzero } => self.with_playback_block(nonzero),
            TimelineStep::SharedUnderrun => self.with_shared_underrun(),
            TimelineStep::SharedOverrun => self.with_shared_overrun(),
            TimelineStep::Xrun { direction } => self.with_xrun(direction),
            TimelineStep::Restart => self.with_restart(),
            TimelineStep::Rebase => self.with_rebase(),
        }
    }

    /// The timeline after several things were recorded, one after another.
    pub open spec fn after_steps(self, steps: Seq<TimelineStep>) -> HardwareTimeline
        decreases steps.len(),
    {
        if steps.len() == 0 {
            self
        } else {
            self.after_steps(steps.drop_last()).after_step(steps.last())
        }
    }

    /// No count of misses, blocks, resets or phases goes past its largest value.
    pub open spec fn can_count(self, step: TimelineStep) -> bool {
        match step {
            TimelineStep::ClientMiss | TimelineStep::CoreMiss => self.pro_deadline_misses
                < u64::MAX,
            TimelineStep::PlaybackBlock { .. } => self.pro_playback_blocks < u64::MAX,
            TimelineStep::Restart | TimelineStep::Rebase => self.timeline_resets < u64::MAX,
            TimelineStep::PointerPhase { .. } => self.duplex_pointer_phase_samples < u64::MAX,
            _ => true,
        }
    }

    /// No count wraps while the steps are recorded.
    pub open spec fn can_count_all(self, steps: Seq<TimelineStep>) -> bool
        decreases steps.len(),
    {
        steps.len() == 0 || self.can_count_all(steps.drop_last()) && self.after_steps(
            steps.drop_last(),
        ).can_count(steps.last())
    }
}

/// A kept minimum and its maximum: nothing was recorded in either, or the minimum is not above
/// the maximum.
pub open spec fn range_kept(kept_min: u64, kept_max: u64) -> bool {
    if kept_min == 0 {
        kept_max == 0
    } else {
        minimum_value(kept_min) <= kept_max
    }
}

/// What holds of every timeline, however it came about.
pub open spec fn counts_agree(timeline: HardwareTimeline) -> bool {
    &&& timeline.pro_deadline_misses == timeline.pro_client_deadline_misses
        + timeline.pro_core_deadline_misses
    &&& timeline.generation == timeline.timeline_resets
    &&& timeline.linked_phase_rebases <= timeline.timeline_resets
    &&& timeline.pro_playback_nonzero_blocks <= timeline.pro_playback_blocks
    &&& range_kept(timeline.playback_delay_min_frames, timeline.playback_delay_max_frames)
    &&& range_kept(
        timeline.playback_ring_delay_min_frames,
        timeline.playback_ring_delay_max_frames,
    )
    &&& range_kept(
        timeline.playback_driver_delay_min_frames,
        timeline.playback_driver_delay_max_frames,
    )
    &&& range_kept(timeline.capture_delay_min_frames, timeline.capture_delay_max_frames)
    &&& range_kept(timeline.pro_wait_budget_min_nanos, timeline.pro_wait_budget_max_nanos)
    &&& range_kept(
        timeline.capture_to_playback_write_min_nanos,
        timeline.capture_to_playback_write_max_nanos,
    )
    &&& timeline.duplex_pointer_phase_min_nanos <= timeline.duplex_pointer_phase_max_nanos
}

/// Whatever is recorded, in whatever order, from a timeline on which nothing was recorded, and as
/// long as no count wraps, the report agrees with itself: every deadline miss is a client's or the
/// engine's, the generation is the number of resets, rebases are resets, blocks with sound are
/// blocks, and no minimum is above its maximum.
pub proof fn every_report_agrees_with_itself(
    timeline: HardwareTimeline,
    steps: Seq<TimelineStep>,
    stats: HardwareStats,
)
    requires
        timeline.nothing_recorded(),
        timeline.can_count_all(steps),
        stats == timeline.after_steps(steps).stats(),
    ensures
        stats.pro_deadline_misses == stats.pro_client_deadline_misses
            + stats.pro_core_deadline_misses,
        stats.generation == stats.timeline_resets,
        stats.linked_phase_rebases <= stats.timeline_resets,
        stats.pro_playback_nonzero_blocks <= stats.pro_playback_blocks,
        stats.playback_delay_min_frames <= stats.playback_delay_max_frames,
        stats.playback_ring_delay_min_frames <= stats.playback_ring_delay_max_frames,
        stats.playback_driver_delay_min_frames <= stats.playback_driver_delay_max_frames,
        stats.capture_delay_min_frames <= stats.capture_delay_max_frames,
        stats.pro_wait_budget_min_nanos <= stats.pro_wait_budget_max_nanos,
        stats.capture_to_playback_write_min_nanos <= stats.capture_to_playback_write_max_nanos,
        stats.duplex_pointer_phase_min_nanos <= stats.duplex_pointer_phase_max_nanos,
{
    lemma_counts_agree(timeline, steps);
}

proof fn lemma_counts_agree(timeline: HardwareTimeline, steps: Seq<TimelineStep>)
    requires
        timeline.nothing_recorded(),
        timeline.can_count_all(steps),
    ensures
        counts_agree(timeline.after_steps(steps)),
    decreases steps.len(),
{
    if steps.len() == 0 {
        let stats = timeline.stats();
        assert(stats.pro_deadline_misses == timeline.pro_deadline_misses);
    } else {
        lemma_counts_agree(timeline, steps.drop_last());
        lemma_step_keeps_counts(timeline.after_steps(steps.drop_last()), steps.last());
    }
}

proof fn lemma_step_keeps_counts(timeline: HardwareTimeline, step: TimelineStep)
    requires
        counts_agree(timeline),
        timeline.can_count(step),
    ensures
        counts_agree(timeline.after_step(step)),
{
}

/// Fewer steps than a count can hold make no count wrap.
pub proof fn few_steps_wrap_no_count(timeline: HardwareTimeline, steps: Seq<TimelineStep>)
    requires
        timeline.nothing_recorded(),
        steps.len() <= u64::MAX,
    ensures
        timeline.can_count_all(steps),
        timeline.after_steps(steps).pro_deadline_misses <= steps.len(),
        timeline.after_steps(steps).pro_playback_blocks <= steps.len(),
        timeline.after_steps(steps).timeline_resets <= steps.len(),
        timeline.after_steps(steps).duplex_pointer_phase_samples <= steps.len(),
    decreases steps.len(),
{
    let stats = timeline.stats();
    if steps.len() == 0 {
        assert(stats.pro_deadline_misses == timeline.pro_deadline_misses);
    } else {
        few_steps_wrap_no_count(timeline, steps.drop_last());
    }
}

/// A report says of every counter what the timeline holds under the same name, with the minima as
/// plain values: one less than they are kept, and zero where none is kept.
pub proof fn a_report_names_every_counter(timeline: HardwareTimeline)
    ensures
        timeline.stats().generation == timeline.generation,
        timeline.stats().sample_position == timeline.sample_position,
        timeline.stats().playback_position == timeline.playback_position,
        timeline.stats().capture_position == timeline.capture_position,
        timeline.stats().hw_playback_xruns == timeline.playback_xruns,
        timeline.stats().hw_capture_xruns == timeline.capture_xruns,
        timeline.stats().playback_delay_frames == timeline.playback_delay_frames,
        timeline.stats().capture_delay_frames == timeline.capture_delay_frames,
        timeline.playback_delay_min_frames == 0 ==> timeline.stats().playback_delay_min_frames == 0,
        timeline.playback_delay_min_frames > 0 ==> timeline.stats().playback_delay_min_frames + 1
            == timeline.playback_delay_min_frames,
        timeline.stats().playback_delay_max_frames == timeline.playback_delay_max_frames,
        timeline.stats().playback_ring_delay_frames == timeline.playback_ring_delay_frames,
        timeline.playback_ring_delay_min_frames == 0 ==> timeline.stats().playback_ring_delay_min_frames == 0,
        timeline.playback_ring_delay_min_frames > 0 ==> timeline.stats().playback_ring_delay_min_frames + 1
            == timeline.playback_ring_delay_min_frames,
        timeline.stats().playback_ring_delay_max_frames == timeline.playback_ring_delay_max_frames,
        timeline.stats().playback_driver_delay_frames == timeline.playback_driver_delay_frames,
        timeline.playback_driver_delay_min_frames == 0 ==> timeline.stats().playback_driver_delay_min_frames == 0,
        timeline.playback_driver_delay_min_frames > 0 ==> timeline.stats().playback_driver_delay_min_frames + 1
            == timeline.playback_driver_delay_min_frames,
        timeline.stats().playback_driver_delay_max_frames == timeline.playback_driver_delay_max_frames,
        timeline.capture_delay_min_frames == 0 ==> timeline.stats().capture_delay_min_frames == 0,
        timeline.capture_delay_min_frames > 0 ==> timeline.stats().capture_delay_min_frames + 1
            == timeline.capture_delay_min_frames,
        timeline.stats().capture_delay_max_frames == timeline.capture_delay_max_frames,
        timeline.stats().playback_target_overshoot_max_frames == timeline.playback_target_overshoot_max_frames,
        timeline.stats().capture_clock_wait_max_nanos == timeline.capture_clock_wait_max_nanos,
        timeline.pro_wait_budget_min_nanos == 0 ==> timeline.stats().pro_wait_budget_min_nanos == 0,
        timeline.pro_wait_budget_min_nanos > 0 ==> timeline.stats().pro_wait_budget_min_nanos + 1
            == timeline.pro_wait_budget_min_nanos,
        timeline.stats().pro_wait_budget_max_nanos == timeline.pro_wait_budget_max_nanos,
        timeline.stats().pro_ready_wait_max_nanos == timeline.pro_ready_wait_max_nanos,
        timeline.stats().playback_write_max_nanos == timeline.playback_write_max_nanos,
        timeline.stats().capture_to_playback_write_nanos == timeline.capture_to_playback_write_nanos,
        timeline.capture_to_playback_write_min_nanos == 0 ==> timeline.stats().capture_to_playback_write_min_nanos == 0,
        timeline.capture_to_playback_write_min_nanos > 0 ==> timeline.stats().capture_to_playback_write_min_nanos + 1
            == timeline.capture_to_playback_write_min_nanos,
        timeline.stats().capture_to_playback_write_max_nanos == timeline.capture_to_playback_write_max_nanos,
        timeline.stats().duplex_pointer_phase_nanos == timeline.duplex_pointer_phase_nanos,
        timeline.stats().duplex_pointer_phase_min_nanos == timeline.duplex_pointer_phase_min_nanos,
        timeline.stats().duplex_pointer_phase_max_nanos == timeline.duplex_pointer_phase_max_nanos,
        timeline.stats().duplex_pointer_phase_samples == timeline.duplex_pointer_phase_samples,
        timeline.stats().linked_phase_attempts == timeline.linked_phase_attempts,
        timeline.stats().linked_phase_rebases == timeline.linked_phase_rebases,
        timeline.stats().linked_phase_score_nanos == timeline.linked_phase_score_nanos,
        timeline.stats().linked_phase_target_met == timeline.linked_phase_target_met,
        timeline.stats().playback_low_watermarks == timeline.playback_low_watermarks,
        timeline.stats().pro_deadline_misses == timeline.pro_deadline_misses,
        timeline.stats().pro_client_deadline_misses == timeline.pro_client_deadline_misses,
        timeline.stats().pro_core_deadline_misses == timeline.pro_core_deadline_misses,
        timeline.stats().pro_capture_overruns == timeline.pro_capture_overruns,
        timeline.stats().pro_playback_blocks == timeline.pro_playback_blocks,
        timeline.stats().pro_playback_nonzero_blocks == timeline.pro_playback_nonzero_blocks,
        timeline.stats().shared_underruns == timeline.shared_underruns,
        timeline.stats().shared_overruns == timeline.shared_overruns,
        timeline.stats().timeline_resets == timeline.timeline_resets,
        timeline.stats().periods_processed == timeline.periods_processed,
{
}

/// What a delay leaves behind in a report: the delay itself, a minimum and a maximum that bound it
/// together with all earlier ones and are among them, and nothing in the other direction. Playback
/// below a period is counted as low.
pub proof fn a_delay_is_reported_for_its_direction(
    timeline: HardwareTimeline,
    delay_frames: i64,
    period_frames: u64,
)
    requires
        delay_frames >= 0,
    ensures
        ({
            let now = timeline.with_pcm_delay(
                StreamDirection::Playback,
                delay_frames,
                period_frames,
            );
            let (before, after) = (timeline.stats(), now.stats());
            &&& after.playback_delay_frames == delay_frames
            &&& after.playback_delay_min_frames <= delay_frames <= after.playback_delay_max_frames
            &&& after.playback_delay_max_frames == delay_frames || after.playback_delay_max_frames
                == before.playback_delay_max_frames
            &&& after.playback_delay_max_frames >= before.playback_delay_max_frames
            &&& timeline.playback_delay_min_frames == 0 ==> after.playback_delay_min_frames
                == delay_frames
            &&& timeline.playback_delay_min_frames > 0 ==> {
                &&& after.playback_delay_min_frames <= before.playback_delay_min_frames
                &&& after.playback_delay_min_frames == delay_frames
                    || after.playback_delay_min_frames == before.playback_delay_min_frames
            }
            &&& delay_frames >= period_frames ==> after.playback_low_watermarks
                == before.playback_low_watermarks
            &&& delay_frames < period_frames && before.playback_low_watermarks < u64::MAX
                ==> after.playback_low_watermarks == before.playback_low_watermarks + 1
            &&& now == HardwareTimeline {
                playback_delay_frames: now.playback_delay_frames,
                playback_delay_min_frames: now.playback_delay_min_frames,
                playback_delay_max_frames: now.playback_delay_max_frames,
                playback_low_watermarks: now.playback_low_watermarks,
                ..timeline
            }
        }),
        ({
            let now = timeline.with_pcm_delay(
                StreamDirection::Capture,
                delay_frames,
                period_frames,
            );
            let (before, after) = (timeline.stats(), now.stats());
            &&& after.capture_delay_frames == delay_frames
            &&& after.capture_delay_min_frames <= delay_frames <= after.capture_delay_max_frames
            &&& after.capture_delay_max_frames == delay_frames || after.capture_delay_max_frames
                == before.capture_delay_max_frames
            &&& after.capture_delay_max_frames >= before.capture_delay_max_frames
            &&& timeline.capture_delay_min_frames == 0 ==> after.capture_delay_min_frames
                == delay_frames
            &&& timeline.capture_delay_min_frames > 0 ==> {
                &&& after.capture_delay_min_frames <= before.capture_delay_min_frames
                &&& after.capture_delay_min_frames == delay_frames
                    || after.capture_delay_min_frames == before.capture_delay_min_frames
            }
            &&& now == HardwareTimeline {
                capture_delay_frames: now.capture_delay_frames,
                capture_delay_min_frames: now.capture_delay_min_frames,
                capture_delay_max_frames: now.capture_delay_max_frames,
                ..timeline
            }
        }),
{
}

/// The playback delay splits into what waits in the ring and what the driver adds: for a delay that
/// is not less than the ring's part the two add up to it, and the ring's part and the free part of
/// the ring add up to the buffer.
pub proof fn ring_and_driver_make_up_the_delay(
    timeline: HardwareTimeline,
    total_delay: i64,
    available: i64,
    buffer: i64,
)
    requires
        0 <= available,
        0 <= buffer,
        0 <= total_delay,
    ensures
        ({
            let after = timeline.with_delay_breakdown(total_delay, available, buffer).stats();
            let ring = after.playback_ring_delay_frames;
            let driver = after.playback_driver_delay_frames;
            &&& available <= buffer ==> ring + available == buffer
            &&& available >= buffer ==> ring == 0
            &&& total_delay >= ring ==> ring + driver == total_delay
            &&& total_delay <= ring ==> driver == 0
            &&& after.playback_ring_delay_min_frames <= ring
                <= after.playback_ring_delay_max_frames
            &&& after.playback_driver_delay_min_frames <= driver
                <= after.playback_driver_delay_max_frames
            &&& timeline.playback_ring_delay_min_frames > 0
                ==> after.playback_ring_delay_min_frames
                <= timeline.stats().playback_ring_delay_min_frames
            &&& timeline.playback_driver_delay_min_frames > 0
                ==> after.playback_driver_delay_min_frames
                <= timeline.stats().playback_driver_delay_min_frames
            &&& after.playback_ring_delay_max_frames
                >= timeline.stats().playback_ring_delay_max_frames
            &&& after.playback_driver_delay_max_frames
                >= timeline.stats().playback_driver_delay_max_frames
            &&& after.playback_delay_frames == timeline.playback_delay_frames
        }),
{
}

/// A budget, a wait, a write time, an overshoot and a phase are reported within the extremes of
/// all that were recorded: an extreme is the new value or the one before, it never moves inwards,
/// and the first value recorded is both.
pub proof fn recorded_times_are_within_their_extremes(
    timeline: HardwareTimeline,
    nanos: u64,
    phase: i64,
)
    requires
        nanos < u64::MAX,
    ensures
        ({
            let (before, after) = (timeline.stats(), timeline.with_wait_budget(nanos).stats());
            &&& after.pro_wait_budget_min_nanos <= nanos <= after.pro_wait_budget_max_nanos
            &&& after.pro_wait_budget_max_nanos >= before.pro_wait_budget_max_nanos
            &&& after.pro_wait_budget_max_nanos == nanos || after.pro_wait_budget_max_nanos
                == before.pro_wait_budget_max_nanos
            &&& timeline.pro_wait_budget_min_nanos == 0 ==> after.pro_wait_budget_min_nanos == nanos
            &&& timeline.pro_wait_budget_min_nanos > 0 ==> {
                &&& after.pro_wait_budget_min_nanos <= before.pro_wait_budget_min_nanos
                &&& after.pro_wait_budget_min_nanos == nanos || after.pro_wait_budget_min_nanos
                    == before.pro_wait_budget_min_nanos
            }
        }),
        ({
            let (before, after) = (timeline.stats(), timeline.with_ready_wait(nanos).stats());
            &&& after.pro_ready_wait_max_nanos >= nanos
            &&& after.pro_ready_wait_max_nanos >= before.pro_ready_wait_max_nanos
            &&& after.pro_ready_wait_max_nanos == nanos || after.pro_ready_wait_max_nanos
                == before.pro_ready_wait_max_nanos
        }),
        ({
            let (before, after) = (timeline.stats(), timeline.with_write_time(nanos).stats());
            &&& after.playback_write_max_nanos >= nanos
            &&& after.playback_write_max_nanos >= before.playback_write_max_nanos
            &&& after.playback_write_max_nanos == nanos || after.playback_write_max_nanos
                == before.playback_write_max_nanos
        }),
        ({
            let (before, after) = (timeline.stats(), timeline.with_target_overshoot(nanos).stats());
            &&& after.playback_target_overshoot_max_frames >= nanos
            &&& after.playback_target_overshoot_max_frames
                >= before.playback_target_overshoot_max_frames
            &&& after.playback_target_overshoot_max_frames == nanos
                || after.playback_target_overshoot_max_frames
                == before.playback_target_overshoot_max_frames
        }),
        ({
            let (before, after) = (timeline.stats(), timeline.with_pointer_phase(phase).stats());
            &&& after.duplex_pointer_phase_nanos == phase
            &&& after.duplex_pointer_phase_min_nanos <= phase
                <= after.duplex_pointer_phase_max_nanos
            &&& before.duplex_pointer_phase_samples == 0 ==> after.duplex_pointer_phase_min_nanos
                == phase && after.duplex_pointer_phase_max_nanos == phase
            &&& before.duplex_pointer_phase_samples > 0 ==> {
                &&& after.duplex_pointer_phase_min_nanos <= before.duplex_pointer_phase_min_nanos
                &&& after.duplex_pointer_phase_max_nanos >= before.duplex_pointer_phase_max_nanos
                &&& after.duplex_pointer_phase_min_nanos == phase
                    || after.duplex_pointer_phase_min_nanos == before.duplex_pointer_phase_min_nanos
                &&& after.duplex_pointer_phase_max_nanos == phase
                    || after.duplex_pointer_phase_max_nanos == before.duplex_pointer_phase_max_nanos
            }
            &&& before.duplex_pointer_phase_samples < u64::MAX
                ==> after.duplex_pointer_phase_samples == before.duplex_pointer_phase_samples + 1
        }),
{
}

/// A time from capture to write is reported within its extremes, and a write whose capture is not
/// remembered, or would lie after it, reports nothing.
pub proof fn a_write_is_timed_from_its_own_capture(
    before: HardwareTimeline,
    read: HardwareTimeline,
    sequence: u64,
    read_nanos: u64,
    write_nanos: u64,
    later: u64,
)
    requires
        before.capture_read_at(read, sequence, read_nanos),
        later != sequence,
        0 < read_nanos,
    ensures
        ({
            let elapsed = read.elapsed_since_capture(sequence, write_nanos);
            let report = read.with_playback_write(sequence, write_nanos).stats();
            &&& elapsed is Some <==> read_nanos <= write_nanos
            &&& elapsed is Some ==> {
                &&& read_nanos + elapsed->0 == write_nanos
                &&& report.capture_to_playback_write_nanos == elapsed->0
                &&& write_nanos < u64::MAX ==> report.capture_to_playback_write_min_nanos
                    <= elapsed->0
                &&& report.capture_to_playback_write_max_nanos >= elapsed->0
                &&& report.capture_to_playback_write_max_nanos == elapsed->0
                    || report.capture_to_playback_write_max_nanos
                    == before.capture_to_playback_write_max_nanos
            }
            &&& elapsed is None ==> read.with_playback_write(sequence, write_nanos) == read
            &&& (later - sequence) % 8 == 0 ==> read.elapsed_since_capture(later, write_nanos)
                is None
            &&& (later - sequence) % 8 != 0 ==> read.elapsed_since_capture(later, write_nanos)
                == before.elapsed_since_capture(later, write_nanos)
        }),
{
    let slot = timing_slot(sequence);
    assert(0 <= slot < 8 && 0 <= timing_slot(later) < 8);
    assert(read.pro_timing@[slot] == (ProTimingSlot { sequence, capture_read_nanos: read_nanos }));
    if (later - sequence) % 8 == 0 {
        assert(timing_slot(later) == slot);
    } else {
        assert(timing_slot(later) != slot);
        assert(read.pro_timing@[timing_slot(later)] == before.pro_timing@[timing_slot(later)]);
    }
}

/// How many steps of a history are of a kind.
pub open spec fn steps_of(steps: Seq<TimelineStep>, kind: spec_fn(TimelineStep) -> bool) -> nat
    decreases steps.len(),
{
    if steps.len() == 0 {
        0
    } else {
        steps_of(steps.drop_last(), kind) + if kind(steps.last()) {
            1nat
        } else {
            0
        }
    }
}

proof fn lemma_steps_of_bounded(steps: Seq<TimelineStep>, kind: spec_fn(TimelineStep) -> bool)
    ensures
        steps_of(steps, kind) <= steps.len(),
    decreases steps.len(),
{
    if steps.len() > 0 {
        lemma_steps_of_bounded(steps.drop_last(), kind);
    }
}

/// Every counter of a report is the number of times that its event was recorded, whatever else was
/// recorded in between: XRUNs of either direction, restarts, rebases, misses by the client and by
/// the engine, overruns, underruns, played blocks and observed phases.
pub proof fn every_counter_counts_its_events(
    timeline: HardwareTimeline,
    steps: Seq<TimelineStep>,
    stats: HardwareStats,
)
    requires
        timeline.nothing_recorded(),
        steps.len() <= u64::MAX,
        stats == timeline.after_steps(steps).stats(),
    ensures
        stats.hw_playback_xruns == steps_of(steps, |s: TimelineStep| s == (TimelineStep::Xrun { direction: StreamDirection::Playback })),
        stats.hw_capture_xruns == steps_of(steps, |s: TimelineStep| s == (TimelineStep::Xrun { direction: StreamDirection::Capture })),
        stats.generation == steps_of(steps, |s: TimelineStep| s is Restart || s is Rebase),
        stats.timeline_resets == steps_of(steps, |s: TimelineStep| s is Restart || s is Rebase),
        stats.linked_phase_rebases == steps_of(steps, |s: TimelineStep| s is Rebase),
        stats.pro_deadline_misses == steps_of(steps, |s: TimelineStep| s is ClientMiss || s is CoreMiss),
        stats.pro_client_deadline_misses == steps_of(steps, |s: TimelineStep| s is ClientMiss),
        stats.pro_core_deadline_misses == steps_of(steps, |s: TimelineStep| s is CoreMiss),
        stats.pro_capture_overruns == steps_of(steps, |s: TimelineStep| s is CaptureOverrun),
        stats.pro_playback_blocks == steps_of(steps, |s: TimelineStep| s is PlaybackBlock),
        stats.pro_playback_nonzero_blocks == steps_of(steps, |s: TimelineStep| s == (TimelineStep::PlaybackBlock { nonzero: true })),
        stats.shared_underruns == steps_of(steps, |s: TimelineStep| s is SharedUnderrun),
        stats.shared_overruns == steps_of(steps, |s: TimelineStep| s is SharedOverrun),
        stats.duplex_pointer_phase_samples == steps_of(steps, |s: TimelineStep| s is PointerPhase),
    decreases steps.len(),
{
    a_report_names_every_counter(timeline.after_steps(steps));
    if steps.len() == 0 {
    } else {
        let earlier = timeline.after_steps(steps.drop_last());
        every_counter_counts_its_events(timeline, steps.drop_last(), earlier.stats());
        a_report_names_every_counter(earlier);
        assert forall|kind: spec_fn(TimelineStep) -> bool|
            #[trigger] steps_of(steps.drop_last(), kind) < u64::MAX by {
            lemma_steps_of_bounded(steps.drop_last(), kind);
        }
    }
}

/// A figure of a report is moved by its own event alone: positions, delays, budgets, times, phases
/// and the calibration stay as they were whatever else is recorded. Processing moves the position
/// by the frames and the periods that were processed, and a calibration is reported as it was
/// given until a restart drops it.
pub proof fn only_its_own_event_moves_a_figure(timeline: HardwareTimeline, step: TimelineStep)
    ensures
        ({
            let (before, after) = (timeline.stats(), timeline.after_step(step).stats());
            &&& step !is PlaybackPosition ==> {
                &&& after.playback_position == before.playback_position
            }
            &&& step !is CapturePosition ==> {
                &&& after.capture_position == before.capture_position
            }
            &&& step !is Processed ==> {
                &&& after.sample_position == before.sample_position
                &&& after.periods_processed == before.periods_processed
            }
            &&& !(step matches TimelineStep::PcmDelay { direction, .. } && direction == StreamDirection::Playback) ==> {
                &&& after.playback_delay_frames == before.playback_delay_frames
                &&& after.playback_delay_min_frames == before.playback_delay_min_frames
                &&& after.playback_delay_max_frames == before.playback_delay_max_frames
                &&& after.playback_low_watermarks == before.playback_low_watermarks
            }
            &&& !(step matches TimelineStep::PcmDelay { direction, .. } && direction == StreamDirection::Capture) ==> {
                &&& after.capture_delay_frames == before.capture_delay_frames
                &&& after.capture_delay_min_frames == before.capture_delay_min_frames
                &&& after.capture_delay_max_frames == before.capture_delay_max_frames
            }
            &&& step !is DelayBreakdown ==> {
                &&& after.playback_ring_delay_frames == before.playback_ring_delay_frames
                &&& after.playback_ring_delay_min_frames == before.playback_ring_delay_min_frames
                &&& after.playback_ring_delay_max_frames == before.playback_ring_delay_max_frames
                &&& after.playback_driver_delay_frames == before.playback_driver_delay_frames
                &&& after.playback_driver_delay_min_frames == before.playback_driver_delay_min_frames
                &&& after.playback_driver_delay_max_frames == before.playback_driver_delay_max_frames
            }
            &&& step !is TargetOvershoot ==> {
                &&& after.playback_target_overshoot_max_frames == before.playback_target_overshoot_max_frames
            }
            &&& step !is WaitBudget ==> {
                &&& after.pro_wait_budget_min_nanos == before.pro_wait_budget_min_nanos
                &&& after.pro_wait_budget_max_nanos == before.pro_wait_budget_max_nanos
            }
            &&& step !is ReadyWait ==> {
                &&& after.pro_ready_wait_max_nanos == before.pro_ready_wait_max_nanos
            }
            &&& step !is WriteTime ==> {
                &&& after.playback_write_max_nanos == before.playback_write_max_nanos
            }
            &&& step !is PointerPhase ==> {
                &&& after.duplex_pointer_phase_nanos == before.duplex_pointer_phase_nanos
                &&& after.duplex_pointer_phase_min_nanos == before.duplex_pointer_phase_min_nanos
                &&& after.duplex_pointer_phase_max_nanos == before.duplex_pointer_phase_max_nanos
            }
            &&& step !is PlaybackWrite ==> {
                &&& after.capture_to_playback_write_nanos == before.capture_to_playback_write_nanos
                &&& after.capture_to_playback_write_min_nanos == before.capture_to_playback_write_min_nanos
                &&& after.capture_to_playback_write_max_nanos == before.capture_to_playback_write_max_nanos
            }
            &&& step !is Calibration && step !is Restart ==> {
                &&& after.linked_phase_attempts == before.linked_phase_attempts
                &&& after.linked_phase_score_nanos == before.linked_phase_score_nanos
                &&& after.linked_phase_target_met == before.linked_phase_target_met
            }
            &&& step matches TimelineStep::PlaybackPosition { position } ==> after.playback_position
                == position
            &&& step matches TimelineStep::CapturePosition { position } ==> after.capture_position
                == position
            &&& step matches TimelineStep::Processed { frames, periods } ==> {
                &&& before.sample_position + frames <= u64::MAX ==> after.sample_position
                    == before.sample_position + frames
                &&& before.periods_processed + periods <= u64::MAX ==> after.periods_processed
                    == before.periods_processed + periods
            }
            &&& step matches TimelineStep::Calibration { attempts, score_nanos, target_met } ==> {
                &&& after.linked_phase_attempts == attempts
                &&& after.linked_phase_score_nanos == score_nanos
                &&& after.linked_phase_target_met == target_met
            }
            &&& step is Restart ==> {
                &&& after.linked_phase_attempts == 0
                &&& after.linked_phase_score_nanos == 0
                &&& !after.linked_phase_target_met
            }
        }),
{
    a_report_names_every_counter(timeline);
    a_report_names_every_counter(timeline.after_step(step));
}

/// A timeline on which nothing was recorded has every counter, position and extreme at zero, and no
/// captured period in its slots.
pub proof fn a_fresh_timeline_is_at_zero(timeline: HardwareTimeline, i: int)
    requires
        timeline.nothing_recorded(),
        0 <= i < 8,
    ensures
        timeline.generation == 0,
        timeline.sample_position == 0,
        timeline.playback_position == 0,
        timeline.capture_position == 0,
        timeline.playback_xruns == 0,
        timeline.capture_xruns == 0,
        timeline.playback_delay_frames == 0,
        timeline.capture_delay_frames == 0,
        timeline.playback_delay_min_frames == 0,
        timeline.playback_delay_max_frames == 0,
        timeline.playback_ring_delay_frames == 0,
        timeline.playback_ring_delay_min_frames == 0,
        timeline.playback_ring_delay_max_frames == 0,
        timeline.playback_driver_delay_frames == 0,
        timeline.playback_driver_delay_min_frames == 0,
        timeline.playback_driver_delay_max_frames == 0,
        timeline.capture_delay_min_frames == 0,
        timeline.capture_delay_max_frames == 0,
        timeline.playback_target_overshoot_max_frames == 0,
        timeline.capture_clock_wait_max_nanos == 0,
        timeline.pro_wait_budget_min_nanos == 0,
        timeline.pro_wait_budget_max_nanos == 0,
        timeline.pro_ready_wait_max_nanos == 0,
        timeline.playback_write_max_nanos == 0,
        timeline.capture_to_playback_write_nanos == 0,
        timeline.capture_to_playback_write_min_nanos == 0,
        timeline.capture_to_playback_write_max_nanos == 0,
        timeline.duplex_pointer_phase_samples == 0,
        timeline.linked_phase_attempts == 0,
        timeline.linked_phase_rebases == 0,
        timeline.linked_phase_score_nanos == 0,
        timeline.playback_low_watermarks == 0,
        timeline.pro_deadline_misses == 0,
        timeline.pro_client_deadline_misses == 0,
        timeline.pro_core_deadline_misses == 0,
        timeline.pro_capture_overruns == 0,
        timeline.pro_playback_blocks == 0,
        timeline.pro_playback_nonzero_blocks == 0,
        timeline.shared_underruns == 0,
        timeline.shared_overruns == 0,
        timeline.timeline_resets == 0,
        timeline.periods_processed == 0,
        !timeline.linked_phase_target_met,
        timeline.pro_timing@[i].sequence == 0,
        timeline.pro_timing@[i].capture_read_nanos == 0,
{
    assert(timeline.stats().generation == HardwareStats::fresh().generation);
    assert(timeline.pro_timing@[i] == (ProTimingSlot { sequence: 0, capture_read_nanos: 0 }));
}

} // verus!
