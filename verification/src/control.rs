//! Flags that the workers of one run share.
use vstd::prelude::*;
use crate::error::EngineError;

verus! {

/// The shared flags of a run.
#[derive(Clone, Copy, Debug, PartialEq, Eq, Structural)]
pub struct WorkerControl {
    /// The caller asked the run to end.
    pub stop: bool,
    /// A worker ended the run.
    pub done: bool,
    /// Whether the hardware has been reported ready, where anyone asks.
    pub hardware_ready: Option<bool>,
    /// The hardware generation in which capture last delivered a period, where it is tracked.
    pub capture_cycle_generation: Option<u64>,
}

impl WorkerControl {
    pub open spec fn stopping(self) -> bool {
        self.stop || self.done
    }

    /// The flags after the run was ended.
    pub open spec fn ended(self) -> WorkerControl {
        WorkerControl { done: true, ..self }
    }

    /// The flags after capture delivered a period in `generation`.
    pub open spec fn with_capture_ready(self, generation: u64) -> WorkerControl {
        WorkerControl {
            capture_cycle_generation: match self.capture_cycle_generation {
                Some(_) => Some(generation),
                None => None,
            },
            ..self
        }
    }

    /// The flags after playback was committed in `generation`: the hardware is ready when capture
    /// delivered in the same generation and the run is not ending.
    pub open spec fn with_hardware_ready(self, generation: u64) -> WorkerControl {
        WorkerControl {
            hardware_ready: if self.hardware_ready is Some && !self.stopping()
                && self.capture_cycle_generation == Some(generation) {
                Some(true)
            } else {
                self.hardware_ready
            },
            ..self
        }
    }

    pub fn should_stop(&self) -> (stopping: bool)
        ensures
            stopping == self.stopping(),
    {
        self.stop || self.done
    }

    pub fn ensure_running(&self) -> (result: Result<(), EngineError>)
        ensures
            result == if self.stopping() {
                Err::<(), EngineError>(EngineError::Stopped)
            } else {
                Ok::<(), EngineError>(())
            },
    {
        if self.should_stop() {
            Err(EngineError::Stopped)
        } else {
            Ok(())
        }
    }

    pub fn mark_capture_cycle_ready(&mut self, generation: u64)
        ensures
            *final(self) == old(self).with_capture_ready(generation),
    {
        if self.capture_cycle_generation.is_some() {
            self.capture_cycle_generation = Some(generation);
        }
    }

    pub fn publish_hardware_ready(&mut self, generation: u64)
        ensures
            *final(self) == old(self).with_hardware_ready(generation),
    {
        if self.should_stop() {
            return ;
        }
        if let Some(captured) = self.capture_cycle_generation {
            if captured == generation && self.hardware_ready.is_some() {
                self.hardware_ready = Some(true);
            }
        }
    }
}

/// The hardware becomes ready only once capture and then playback went through in one generation:
/// with no capture, or a capture of another generation, publishing changes nothing.
pub proof fn readiness_needs_capture_then_playback(control: WorkerControl, generation: u64)
    requires
        control.hardware_ready == Some(false),
    ensures
        control.with_hardware_ready(generation).hardware_ready == Some(true) <==> (
        control.capture_cycle_generation == Some(generation) && !control.stopping()),
        control.with_capture_ready(generation).hardware_ready == Some(false),
{
}

/// A run ends when its caller or a worker asks for it, and ending it asks for nothing else.
pub proof fn either_flag_ends_a_run(control: WorkerControl)
    ensures
        control.stop ==> control.stopping(),
        control.done ==> control.stopping(),
        !control.stop && !control.done ==> !control.stopping(),
        control.ended().stopping(),
        control.ended().stop == control.stop,
        control.ended().hardware_ready == control.hardware_ready,
        control.ended().capture_cycle_generation == control.capture_cycle_generation,
{
}

/// Capture is tracked only where anyone asks, readiness is never taken back and never reported
/// where nobody asks, and neither says anything about the end of the run.
pub proof fn readiness_is_reported_where_it_is_asked_for(control: WorkerControl, generation: u64)
    ensures
        ({
            let captured = control.with_capture_ready(generation);
            let ready = control.with_hardware_ready(generation);
            &&& control.capture_cycle_generation is None
                ==> captured.capture_cycle_generation is None
            &&& control.capture_cycle_generation is Some ==> captured.capture_cycle_generation
                == Some(generation)
            &&& captured.hardware_ready == control.hardware_ready
            &&& captured.stop == control.stop && captured.done == control.done
            &&& control.hardware_ready is None ==> ready.hardware_ready is None
            &&& control.hardware_ready == Some(true) ==> ready.hardware_ready == Some(true)
            &&& control.hardware_ready == Some(false) && !control.stop && !control.done
                && control.capture_cycle_generation is Some
                ==> captured.with_hardware_ready(generation).hardware_ready == Some(true)
            &&& ready.capture_cycle_generation == control.capture_cycle_generation
            &&& ready.stop == control.stop && ready.done == control.done
        }),
{
}

} // verus!
