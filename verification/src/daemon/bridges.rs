//! The cycle's views of the daemon, made once before the hardware starts.
use vstd::prelude::*;
use crate::daemon::capture::DaemonCaptureBridge;
use crate::daemon::playback::DaemonPlaybackBridge;
use crate::daemon::port::{DeviceShape, SharedPortBridge};
use crate::daemon::state::{DaemonState, SharedPortState};
use crate::protocol::messages::PortDirection;
use crate::routing::{first_outside, silence};

verus! {

/// The ports of one direction, in order.
pub open spec fn ports_of(ports: Seq<SharedPortState>, direction: PortDirection) -> Seq<int>
    decreases ports.len(),
{
    if ports.len() == 0 {
        Seq::empty()
    } else {
        let rest = ports_of(ports.drop_last(), direction);
        if ports.last().direction == direction {
            rest.push(ports.len() - 1)
        } else {
            rest
        }
    }
}

/// [`ports_of`] names ports of the direction.
pub proof fn ports_of_names_ports(ports: Seq<SharedPortState>, direction: PortDirection)
    ensures
        forall|k: int|
            0 <= k < ports_of(ports, direction).len() ==> 0 <= #[trigger] ports_of(
                ports,
                direction,
            )[k] < ports.len() && ports[ports_of(ports, direction)[k]].direction == direction,
    decreases ports.len(),
{
    if ports.len() > 0 {
        let rest = ports.drop_last();
        ports_of_names_ports(rest, direction);
        assert forall|k: int| 0 <= k < ports_of(ports, direction).len() implies 0
            <= #[trigger] ports_of(ports, direction)[k] < ports.len() && ports[ports_of(
            ports,
            direction,
        )[k]].direction == direction by {
            if k < ports_of(rest, direction).len() {
                assert(ports_of(ports, direction)[k] == ports_of(rest, direction)[k]);
            }
        }
    }
}

/// The device has a channel for each of a port's.
fn channels_exist(channels: &Vec<usize>, physical: usize) -> (exist: bool)
    ensures
        exist == (first_outside(channels@, physical) is None),
{
    let mut i: usize = 0;
    while i < channels.len()
        invariant
            i <= channels@.len(),
            first_outside(channels@.take(i as int), physical) is None,
        decreases channels.len() - i,
    {
        assert(channels@.take(i + 1).drop_last() =~= channels@.take(i as int));
        if channels[i] >= physical {
            proof {
                crate::routing::lemma_outside_stays(channels@, physical, i + 1);
            }
            return false;
        }
        i = i + 1;
    }
    assert(channels@.take(i as int) =~= channels@);
    true
}

impl DaemonState {
    pub open spec fn shape(&self) -> DeviceShape {
        DeviceShape {
            period_frames: self.period_frames,
            playback_channels: self.playback_channels,
            capture_channels: self.capture_channels,
            latency_periods: self.shared_latency_periods,
            repeat_on_underrun: self.shared_playback_repeat_on_underrun,
        }
    }

    /// Every port uses channels that the device has, and a period of output can be counted.
    pub open spec fn fits_device(&self) -> bool {
        &&& self.period_frames * self.playback_channels <= usize::MAX
        &&& forall|i: int|
            0 <= i < self.shared@.len() ==> self.shape().holds(#[trigger] self.shared@[i])
    }

    /// The slots that a port's bridge may fill with captured blocks.
    pub open spec fn capacity_of(&self, port: SharedPortState) -> usize {
        match port.direction {
            PortDirection::Capture => port.session.geometry.slot_count as usize,
            PortDirection::Playback => self.shared_buffer_periods,
        }
    }

    fn device_shape(&self) -> (shape: DeviceShape)
        ensures
            shape == self.shape(),
    {
        DeviceShape {
            period_frames: self.period_frames,
            playback_channels: self.playback_channels,
            capture_channels: self.capture_channels,
            latency_periods: self.shared_latency_periods,
            repeat_on_underrun: self.shared_playback_repeat_on_underrun,
        }
    }

    /// Whether the ports can be served by the device.
    pub fn ports_fit_device(&self) -> (fit: bool)
        ensures
            fit == self.fits_device(),
    {
        if self.period_frames.checked_mul(self.playback_channels).is_none() {
            return false;
        }
        let mut i: usize = 0;
        while i < self.shared.len()
            invariant
                i <= self.shared@.len(),
                forall|k: int|
                    0 <= k < i ==> self.shape().holds(#[trigger] self.shared@[k]),
            decreases self.shared.len() - i,
        {
            let physical: usize = match self.shared[i].direction {
                PortDirection::Playback => self.playback_channels,
                PortDirection::Capture => self.capture_channels,
            };
            let logical: Option<usize> = self.period_frames.checked_mul(
                self.shared[i].channels.len(),
            );
            let counted: bool = match logical {
                Some(samples) => samples == self.shared[i].logical_samples,
                None => false,
            };
            if physical == 0 || !channels_exist(&self.shared[i].channels, physical)
                || self.period_frames.checked_mul(physical).is_none() || !counted {
                assert(!self.shape().holds(self.shared@[i as int]));
                return false;
            }
            i = i + 1;
        }
        true
    }

    /// The bridges of the ports of one direction.
    fn port_bridges(&self, direction: PortDirection) -> (bridges: Vec<SharedPortBridge>)
        requires
            self.fits_device(),
        ensures
            self.bridged(bridges@, direction),
    {
        let shape = self.device_shape();
        let mut bridges: Vec<SharedPortBridge> = Vec::new();
        let mut i: usize = 0;
        while i < self.shared.len()
            invariant
                i <= self.shared@.len(),
                shape == self.shape(),
                self.fits_device(),
                bridges@.len() == ports_of(self.shared@.take(i as int), direction).len(),
                forall|k: int|
                    0 <= k < bridges@.len() ==> {
                        let port = ports_of(self.shared@.take(i as int), direction)[k];
                        (#[trigger] bridges@[k]).fresh_for(
                            self.shared@[port],
                            port,
                            self.shape(),
                            self.capacity_of(self.shared@[port]),
                        )
                    },
            decreases self.shared.len() - i,
        {
            assert(self.shared@.take(i + 1).drop_last() =~= self.shared@.take(i as int));
            assert(self.shape().holds(self.shared@[i as int]));
            if self.shared[i].direction == direction {
                let capacity: usize = match direction {
                    PortDirection::Capture => self.shared[i].session.geometry.slot_count as usize,
                    PortDirection::Playback => self.shared_buffer_periods,
                };
                bridges.push(SharedPortBridge::new(&self.shared[i], i, shape, capacity));
            }
            i = i + 1;
        }
        assert(self.shared@.take(i as int) =~= self.shared@);
        bridges
    }

    /// The bridges are new ones of the ports of one direction, in order.
    pub open spec fn bridged(
        &self,
        bridges: Seq<SharedPortBridge>,
        direction: PortDirection,
    ) -> bool {
        let ports = ports_of(self.shared@, direction);
        &&& bridges.len() == ports.len()
        &&& forall|k: int|
            0 <= k < bridges.len() ==> (#[trigger] bridges[k]).fresh_for(
                self.shared@[ports[k]],
                ports[k],
                self.shape(),
                self.capacity_of(self.shared@[ports[k]]),
            )
    }

    /// Makes the bridges of the two hardware directions. They are made once.
    pub fn bridges(&mut self) -> (bridges: (DaemonCaptureBridge, DaemonPlaybackBridge))
        requires
            old(self).fits_device(),
            !old(self).bridges_created,
        ensures
            *final(self) == (DaemonState { bridges_created: true, ..*old(self) }),
            old(self).bridged(bridges.0.shared@, PortDirection::Capture),
            bridges.0.playback_wait is None,
            bridges.0.capture_wait is None,
            old(self).bridged(bridges.1.shared@, PortDirection::Playback),
            bridges.1.last_valid_pro@ == silence(
                (old(self).period_frames * old(self).playback_channels) as nat,
            ),
            bridges.1.last_valid_pro_identity is None,
            bridges.1.prepared_shared_sequence is None,
            bridges.1.core_miss_sequence is None,
            bridges.1.wait_timing is None,
    {
        let capture = DaemonCaptureBridge::new(self.port_bridges(PortDirection::Capture));
        let playback = DaemonPlaybackBridge::new(
            self.port_bridges(PortDirection::Playback),
            self.period_frames * self.playback_channels,
        );
        self.bridges_created = true;
        (capture, playback)
    }
}

/// Every port of a direction has its place among the ports of that direction, and the places keep
/// the daemon's order: no port is left out and none comes twice.
pub proof fn every_port_of_a_direction_is_named_once(
    ports: Seq<SharedPortState>,
    direction: PortDirection,
)
    ensures
        forall|i: int|
            0 <= i < ports.len() && (#[trigger] ports[i]).direction == direction ==> exists|k: int|
                0 <= k < ports_of(ports, direction).len() && #[trigger] ports_of(
                    ports,
                    direction,
                )[k] == i,
        forall|j: int, k: int|
            0 <= j < k < ports_of(ports, direction).len() ==> #[trigger] ports_of(
                ports,
                direction,
            )[j] < #[trigger] ports_of(ports, direction)[k],
    decreases ports.len(),
{
    if ports.len() > 0 {
        let rest = ports.drop_last();
        let named = ports_of(ports, direction);
        every_port_of_a_direction_is_named_once(rest, direction);
        ports_of_names_ports(rest, direction);
        assert forall|i: int|
            0 <= i < ports.len() && (#[trigger] ports[i]).direction == direction implies exists|
            k: int,
        | 0 <= k < named.len() && #[trigger] named[k] == i by {
            if i < rest.len() {
                assert(rest[i] == ports[i]);
                let k = choose|k: int|
                    0 <= k < ports_of(rest, direction).len() && #[trigger] ports_of(
                        rest,
                        direction,
                    )[k] == i;
                assert(named[k] == i);
            } else {
                assert(named[named.len() - 1] == i);
            }
        }
        assert forall|j: int, k: int| 0 <= j < k < named.len() implies #[trigger] named[j]
            < #[trigger] named[k] by {
            let earlier = ports_of(rest, direction);
            assert(named[j] == earlier[j]);
            if k < earlier.len() {
                assert(named[k] == earlier[k]);
            }
        }
    }
}

/// The bridge of a port is made for the device that the daemon drives: it moves the daemon's periods
/// between the port's channels and the channels of its own direction.
pub proof fn a_bridge_fits_its_port(
    state: DaemonState,
    bridges: Seq<SharedPortBridge>,
    direction: PortDirection,
    k: int,
)
    requires
        state.bridged(bridges, direction),
        0 <= k < bridges.len(),
    ensures
        ({
            let port = state.shared@[bridges[k].index as int];
            &&& bridges[k].index < state.shared@.len()
            &&& port.direction == direction
            &&& bridges[k].port.model().id == port.id@
            &&& bridges[k].port.model().channels == port.channels@
            &&& bridges[k].period_frames == state.period_frames
            &&& direction is Playback ==> bridges[k].physical_channels == state.playback_channels
            &&& direction is Capture ==> bridges[k].physical_channels == state.capture_channels
            &&& direction is Playback ==> bridges[k].capture_capacity_slots
                == state.shared_buffer_periods
            &&& direction is Capture ==> bridges[k].capture_capacity_slots
                == port.session.geometry.slot_count
            &&& bridges[k].latency_periods == state.shared_latency_periods
            &&& bridges[k].repeat_on_underrun == state.shared_playback_repeat_on_underrun
            &&& bridges[k].last_valid_playback is None
            &&& bridges[k].prepared is None
        }),
{
    ports_of_names_ports(state.shared@, direction);
    assert(bridges[k].fresh_for(
        state.shared@[ports_of(state.shared@, direction)[k]],
        ports_of(state.shared@, direction)[k],
        state.shape(),
        state.capacity_of(state.shared@[ports_of(state.shared@, direction)[k]]),
    ));
}

proof fn lemma_none_outside(channels: Seq<usize>, physical: usize, i: int)
    requires
        0 <= i < channels.len(),
        first_outside(channels, physical) is None,
    ensures
        channels[i] < physical,
    decreases channels.len(),
{
    if i < channels.len() - 1 {
        lemma_none_outside(channels.drop_last(), physical, i);
    }
}

/// A device that fits its ports has every channel that they use, and a block of a port is a period
/// of its channels.
pub proof fn a_fitting_device_has_every_channel(state: DaemonState, i: int, c: int)
    requires
        state.fits_device(),
        0 <= i < state.shared@.len(),
        0 <= c < state.shared@[i].channels@.len(),
    ensures
        state.shared@[i].direction is Playback ==> state.shared@[i].channels@[c]
            < state.playback_channels,
        state.shared@[i].direction is Capture ==> state.shared@[i].channels@[c]
            < state.capture_channels,
        state.shared@[i].logical_samples == state.period_frames * state.shared@[i].channels@.len(),
{
    assert(state.shape().holds(state.shared@[i]));
    lemma_none_outside(
        state.shared@[i].channels@,
        state.shape().channels(state.shared@[i].direction),
        c,
    );
}

} // verus!
