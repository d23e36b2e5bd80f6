//! Moving blocks between ports and the interleaved frames of the device.
use vstd::prelude::*;
use crate::config::{PortConfig, Profile};
use crate::error::RoutingError;

verus! {

/// A port whose channels can be used as indices.
#[derive(Clone, Debug, PartialEq, Eq)]
pub struct CompiledPort {
    id: String,
    name: String,
    channels: Vec<usize>,
}

/// What a port is.
#[verifier::ext_equal]
pub struct PortModel {
    pub id: Seq<char>,
    pub name: Seq<char>,
    pub channels: Seq<usize>,
}

/// The first channel that the device does not have.
pub open spec fn first_outside(channels: Seq<usize>, physical_channels: usize) -> Option<usize>
    decreases channels.len(),
{
    if channels.len() == 0 {
        None
    } else {
        match first_outside(channels.drop_last(), physical_channels) {
            Some(channel) => Some(channel),
            None => if channels.last() >= physical_channels {
                Some(channels.last())
            } else {
                None
            },
        }
    }
}

/// Why a block of `frames` frames cannot be moved, if it cannot.
pub open spec fn routing_error(
    channels: Seq<usize>,
    physical_len: nat,
    physical_channels: usize,
    frames: usize,
    logical_len: nat,
) -> Option<RoutingError> {
    if physical_channels == 0 {
        Some(RoutingError::ZeroPhysicalChannels)
    } else if first_outside(channels, physical_channels) is Some {
        Some(
            RoutingError::PhysicalChannelOutOfRange {
                channel: first_outside(channels, physical_channels)->0,
                physical_channels,
            },
        )
    } else if frames * physical_channels > usize::MAX || frames * channels.len() > usize::MAX {
        Some(RoutingError::SampleCountOverflow)
    } else if physical_len < frames * physical_channels {
        Some(
            RoutingError::PhysicalBufferTooSmall {
                actual: physical_len as usize,
                required: (frames * physical_channels) as usize,
            },
        )
    } else if logical_len < frames * channels.len() {
        Some(
            RoutingError::LogicalBufferTooSmall {
                actual: logical_len as usize,
                required: (frames * channels.len()) as usize,
            },
        )
    } else {
        None
    }
}

/// A port block read from device frames: sample `k` is channel `k % n` of frame `k / n`; samples
/// beyond the block keep their value.
pub open spec fn read_block<T>(
    channels: Seq<usize>,
    physical: Seq<T>,
    physical_channels: int,
    frames: int,
    before: Seq<T>,
) -> Seq<T> {
    let n = channels.len() as int;
    Seq::new(
        before.len(),
        |k: int|
            if k < frames * n {
                physical[(k / n) * physical_channels + channels[k % n]]
            } else {
                before[k]
            },
    )
}

/// The last channel of a port that goes to device channel `target`.
pub open spec fn last_source(channels: Seq<usize>, target: int) -> Option<int>
    decreases channels.len(),
{
    if channels.len() == 0 {
        None
    } else if channels.last() == target {
        Some(channels.len() - 1)
    } else {
        last_source(channels.drop_last(), target)
    }
}

/// Device frames after a port block was written to them: each device channel takes the sample of
/// the last port channel that goes to it, and everything else keeps its value.
pub open spec fn written_block<T>(
    channels: Seq<usize>,
    logical: Seq<T>,
    physical_channels: int,
    frames: int,
    before: Seq<T>,
) -> Seq<T> {
    let n = channels.len() as int;
    Seq::new(
        before.len(),
        |k: int|
            if k < frames * physical_channels {
                match last_source(channels, k % physical_channels) {
                    Some(c) => logical[(k / physical_channels) * n + c],
                    None => before[k],
                }
            } else {
                before[k]
            },
    )
}

/// The nearest sample to a sum.
pub open spec fn saturated(sum: int) -> i32 {
    if sum > i32::MAX {
        i32::MAX
    } else if sum < i32::MIN {
        i32::MIN
    } else {
        sum as i32
    }
}

/// `sample` with every port channel added that goes to device channel `target`, in port order;
/// the frame of the port begins at `at`.
pub open spec fn mixed_sample(
    channels: Seq<usize>,
    logical: Seq<i32>,
    at: int,
    target: int,
    sample: i32,
) -> i32
    decreases channels.len(),
{
    if channels.len() == 0 {
        sample
    } else {
        let earlier = mixed_sample(channels.drop_last(), logical, at, target, sample);
        if channels.last() == target {
            saturated(earlier + logical[at + channels.len() - 1])
        } else {
            earlier
        }
    }
}

/// Device frames after a port block was mixed into them.
pub open spec fn mixed_block(
    channels: Seq<usize>,
    logical: Seq<i32>,
    physical_channels: int,
    frames: int,
    before: Seq<i32>,
) -> Seq<i32> {
    let n = channels.len() as int;
    Seq::new(
        before.len(),
        |k: int|
            if k < frames * physical_channels {
                mixed_sample(
                    channels,
                    logical,
                    (k / physical_channels) * n,
                    k % physical_channels,
                    before[k],
                )
            } else {
                before[k]
            },
    )
}

proof fn lemma_none_outside(channels: Seq<usize>, physical_channels: usize)
    requires
        first_outside(channels, physical_channels) is None,
    ensures
        forall|i: int| 0 <= i < channels.len() ==> #[trigger] channels[i] < physical_channels,
    decreases channels.len(),
{
    if channels.len() > 0 {
        lemma_none_outside(channels.drop_last(), physical_channels);
        assert forall|i: int| 0 <= i < channels.len() implies #[trigger] channels[i]
            < physical_channels by {
            if i < channels.len() - 1 {
                assert(channels.drop_last()[i] == channels[i]);
            }
        }
    }
}

/// A frame and a channel give an index, and the index gives them back.
pub proof fn lemma_index(frame: int, channels: int, channel: int)
    requires
        0 <= frame,
        0 <= channel < channels,
    ensures
        0 <= frame * channels,
        (frame * channels + channel) / channels == frame,
        (frame * channels + channel) % channels == channel,
{
    assert(frame * channels >= 0) by (nonlinear_arith)
        requires
            frame >= 0,
            channels > 0,
    ;
    assert(frame * channels == channels * frame) by (nonlinear_arith);
    vstd::arithmetic::div_mod::lemma_fundamental_div_mod_converse(
        frame * channels + channel,
        channels,
        frame,
        channel,
    );
}

/// Whole frames before `frame` end where `frame` begins.
proof fn lemma_frame_fits(frame: int, frames: int, channels: int)
    requires
        0 <= frame < frames,
        0 <= channels,
    ensures
        0 <= frame * channels,
        frame * channels + channels <= frames * channels,
        (frame + 1) * channels == frame * channels + channels,
{
    assert(frame * channels >= 0 && frame * channels + channels <= frames * channels && (frame + 1)
        * channels == frame * channels + channels) by (nonlinear_arith)
        requires
            0 <= frame < frames,
            0 <= channels,
    ;
}

/// An index inside frame `frame` has that frame as its quotient.
proof fn lemma_inside_frame(k: int, frame: int, channels: int)
    requires
        channels > 0,
        0 <= frame,
        frame * channels <= k < frame * channels + channels,
    ensures
        k / channels == frame,
        k % channels == k - frame * channels,
{
    lemma_index(frame, channels, k - frame * channels);
}

/// A block of silence.
pub open spec fn silence(len: nat) -> Seq<i32> {
    Seq::new(len, |i: int| 0i32)
}

/// Makes a block silent.
pub fn fill_silence(block: &mut [i32])
    ensures
        final(block)@ == silence(old(block)@.len()),
{
    let room: usize = block.len();
    let mut i: usize = 0;
    while i < room
        invariant
            i <= room == block@.len(),
            block@.len() == old(block)@.len(),
            forall|k: int| 0 <= k < i ==> #[trigger] block@[k] == 0,
        decreases room - i,
    {
        block[i] = 0;
        i = i + 1;
    }
    assert(block@ =~= silence(old(block)@.len()));
}

fn add_saturating(a: i32, b: i32) -> (sum: i32)
    ensures
        sum == saturated(a + b),
{
    let wide: i64 = a as i64 + b as i64;
    if wide > i32::MAX as i64 {
        i32::MAX
    } else if wide < i32::MIN as i64 {
        i32::MIN
    } else {
        wide as i32
    }
}

impl CompiledPort {
    pub closed spec fn model(&self) -> PortModel {
        PortModel { id: self.id@, name: self.name@, channels: self.channels@ }
    }

    pub(crate) fn new(id: String, name: String, channels: Vec<usize>) -> (port: Self)
        ensures
            port.model() == (PortModel { id: id@, name: name@, channels: channels@ }),
    {
        CompiledPort { id, name, channels }
    }

    pub fn id(&self) -> (id: &str)
        ensures
            id@ == self.model().id,
    {
        self.id.as_str()
    }

    pub fn name(&self) -> (name: &str)
        ensures
            name@ == self.model().name,
    {
        self.name.as_str()
    }

    pub fn channels(&self) -> (channels: &[usize])
        ensures
            channels@ == self.model().channels,
    {
        self.channels.as_slice()
    }

    fn check_buffers(
        &self,
        physical_len: usize,
        physical_channels: usize,
        frames: usize,
        logical_len: usize,
    ) -> (result: Result<(), RoutingError>)
        ensures
            match result {
                Ok(_) => routing_error(
                    self.channels@,
                    physical_len as nat,
                    physical_channels,
                    frames,
                    logical_len as nat,
                ) is None,
                Err(e) => routing_error(
                    self.channels@,
                    physical_len as nat,
                    physical_channels,
                    frames,
                    logical_len as nat,
                ) == Some(e),
            },
    {
        if physical_channels == 0 {
            return Err(RoutingError::ZeroPhysicalChannels);
        }
        let mut i: usize = 0;
        while i < self.channels.len()
            invariant
                i <= self.channels@.len(),
                physical_channels > 0,
                first_outside(self.channels@.take(i as int), physical_channels) is None,
            decreases self.channels.len() - i,
        {
            let channel: usize = self.channels[i];
            assert(self.channels@.take(i + 1).drop_last() =~= self.channels@.take(i as int));
            if channel >= physical_channels {
                proof {
                    lemma_outside_stays(self.channels@, physical_channels, i + 1);
                }
                return Err(
                    RoutingError::PhysicalChannelOutOfRange { channel, physical_channels },
                );
            }
            i = i + 1;
        }
        assert(self.channels@.take(i as int) =~= self.channels@);
        let physical_samples: usize = match frames.checked_mul(physical_channels) {
            Some(samples) => samples,
            None => {
                return Err(RoutingError::SampleCountOverflow);
            },
        };
        let logical_samples: usize = match frames.checked_mul(self.channels.len()) {
            Some(samples) => samples,
            None => {
                return Err(RoutingError::SampleCountOverflow);
            },
        };
        if physical_len < physical_samples {
            return Err(
                RoutingError::PhysicalBufferTooSmall {
                    actual: physical_len,
                    required: physical_samples,
                },
            );
        }
        if logical_len < logical_samples {
            return Err(
                RoutingError::LogicalBufferTooSmall {
                    actual: logical_len,
                    required: logical_samples,
                },
            );
        }
        Ok(())
    }

    /// Copies the port's channels out of device frames.
    pub fn copy_from_physical<T: Copy>(
        &self,
        physical: &[T],
        physical_channels: usize,
        frames: usize,
        logical: &mut [T],
    ) -> (result: Result<(), RoutingError>)
        ensures
            match routing_error(
                self.model().channels,
                physical@.len(),
                physical_channels,
                frames,
                old(logical)@.len(),
            ) {
                None => {
                    &&& result is Ok
                    &&& final(logical)@ == read_block(
                        self.model().channels,
                        physical@,
                        physical_channels as int,
                        frames as int,
                        old(logical)@,
                    )
                },
                Some(e) => result == Err::<(), RoutingError>(e) && final(logical)@ == old(logical)@,
            },
    {
        if let Err(e) = self.check_buffers(
            physical.len(),
            physical_channels,
            frames,
            logical.len(),
        ) {
            return Err(e);
        }
        let n: usize = self.channels.len();
        let room: usize = logical.len();
        let source: usize = physical.len();
        proof {
            lemma_none_outside(self.channels@, physical_channels);
        }
        let mut frame: usize = 0;
        while frame < frames
            invariant
                frame <= frames,
                n == self.channels@.len(),
                physical_channels > 0,
                forall|i: int|
                    0 <= i < self.channels@.len() ==> #[trigger] self.channels@[i]
                        < physical_channels,
                source == physical@.len(),
                room == logical@.len(),
                logical@.len() == old(logical)@.len(),
                frames * physical_channels <= source,
                frames * n <= room,
                logical@ =~= read_block(
                    self.channels@,
                    physical@,
                    physical_channels as int,
                    frame as int,
                    old(logical)@,
                ),
            decreases frames - frame,
        {
            proof {
                lemma_frame_fits(frame as int, frames as int, physical_channels as int);
                lemma_frame_fits(frame as int, frames as int, n as int);
            }
            let from: usize = frame * physical_channels;
            let to: usize = frame * n;
            let ghost start = logical@;
            let mut c: usize = 0;
            while c < n
                invariant
                    c <= n,
                    n == self.channels@.len(),
                    forall|i: int|
                        0 <= i < self.channels@.len() ==> #[trigger] self.channels@[i]
                            < physical_channels,
                    source == physical@.len(),
                    room == logical@.len(),
                    start.len() == logical@.len(),
                    from + physical_channels <= source,
                    to + n <= room,
                    forall|k: int|
                        0 <= k < logical@.len() ==> #[trigger] logical@[k] == if to <= k < to + c {
                            physical@[from + self.channels@[k - to]]
                        } else {
                            start[k]
                        },
                decreases n - c,
            {
                logical[to + c] = physical[from + self.channels[c]];
                c = c + 1;
            }
            proof {
                let next = read_block(
                    self.channels@,
                    physical@,
                    physical_channels as int,
                    frame + 1,
                    old(logical)@,
                );
                assert forall|k: int| 0 <= k < logical@.len() implies logical@[k] == next[k] by {
                    if to <= k < to + n {
                        lemma_inside_frame(k, frame as int, n as int);
                    }
                }
                assert(logical@ =~= next);
            }
            frame = frame + 1;
        }
        Ok(())
    }

    /// Copies a port block into device frames.
    pub fn copy_to_physical<T: Copy>(
        &self,
        logical: &[T],
        physical_channels: usize,
        frames: usize,
        physical: &mut [T],
    ) -> (result: Result<(), RoutingError>)
        ensures
            match routing_error(
                self.model().channels,
                old(physical)@.len(),
                physical_channels,
                frames,
                logical@.len(),
            ) {
                None => {
                    &&& result is Ok
                    &&& final(physical)@ == written_block(
                        self.model().channels,
                        logical@,
                        physical_channels as int,
                        frames as int,
                        old(physical)@,
                    )
                },
                Some(e) => result == Err::<(), RoutingError>(e) && final(physical)@ == old(physical)@,
            },
    {
        if let Err(e) = self.check_buffers(
            physical.len(),
            physical_channels,
            frames,
            logical.len(),
        ) {
            return Err(e);
        }
        let n: usize = self.channels.len();
        let room: usize = physical.len();
        let source: usize = logical.len();
        proof {
            lemma_none_outside(self.channels@, physical_channels);
        }
        let mut frame: usize = 0;
        while frame < frames
            invariant
                frame <= frames,
                n == self.channels@.len(),
                physical_channels > 0,
                forall|i: int|
                    0 <= i < self.channels@.len() ==> #[trigger] self.channels@[i]
                        < physical_channels,
                source == logical@.len(),
                room == physical@.len(),
                physical@.len() == old(physical)@.len(),
                frames * physical_channels <= room,
                frames * n <= source,
                physical@ =~= written_block(
                    self.channels@,
                    logical@,
                    physical_channels as int,
                    frame as int,
                    old(physical)@,
                ),
            decreases frames - frame,
        {
            proof {
                lemma_frame_fits(frame as int, frames as int, physical_channels as int);
                lemma_frame_fits(frame as int, frames as int, n as int);
            }
            let to: usize = frame * physical_channels;
            let from: usize = frame * n;
            let ghost start = physical@;
            let mut c: usize = 0;
            while c < n
                invariant
                    c <= n,
                    n == self.channels@.len(),
                    forall|i: int|
                        0 <= i < self.channels@.len() ==> #[trigger] self.channels@[i]
                            < physical_channels,
                    source == logical@.len(),
                    room == physical@.len(),
                    start.len() == physical@.len(),
                    to + physical_channels <= room,
                    from + n <= source,
                    forall|k: int|
                        0 <= k < physical@.len() ==> #[trigger] physical@[k] == if to <= k < to
                            + physical_channels {
                            match last_source(self.channels@.take(c as int), k - to) {
                                Some(i) => logical@[from + i],
                                None => start[k],
                            }
                        } else {
                            start[k]
                        },
                decreases n - c,
            {
                let target: usize = self.channels[c];
                let ghost before = physical@;
                physical[to + target] = logical[from + c];
                proof {
                    let longer = self.channels@.take(c + 1);
                    assert(longer.drop_last() =~= self.channels@.take(c as int));
                    assert(longer.last() == target);
                }
                c = c + 1;
            }
            proof {
                assert(self.channels@.take(c as int) =~= self.channels@);
                let next = written_block(
                    self.channels@,
                    logical@,
                    physical_channels as int,
                    frame + 1,
                    old(physical)@,
                );
                assert forall|k: int| 0 <= k < physical@.len() implies physical@[k] == next[k] by {
                    if to <= k < to + physical_channels {
                        lemma_inside_frame(k, frame as int, physical_channels as int);
                        assert(start[k] == old(physical)@[k]);
                    }
                }
                assert(physical@ =~= next);
            }
            frame = frame + 1;
        }
        Ok(())
    }

    /// Mixes a port block into device frames, keeping every sum in range.
    pub fn add_to_physical_saturating(
        &self,
        logical: &[i32],
        physical_channels: usize,
        frames: usize,
        physical: &mut [i32],
    ) -> (result: Result<(), RoutingError>)
        ensures
            match routing_error(
                self.model().channels,
                old(physical)@.len(),
                physical_channels,
                frames,
                logical@.len(),
            ) {
                None => {
                    &&& result is Ok
                    &&& final(physical)@ == mixed_block(
                        self.model().channels,
                        logical@,
                        physical_channels as int,
                        frames as int,
                        old(physical)@,
                    )
                },
                Some(e) => result == Err::<(), RoutingError>(e) && final(physical)@ == old(physical)@,
            },
    {
        if let Err(e) = self.check_buffers(
            physical.len(),
            physical_channels,
            frames,
            logical.len(),
        ) {
            return Err(e);
        }
        let n: usize = self.channels.len();
        let room: usize = physical.len();
        let source: usize = logical.len();
        proof {
            lemma_none_outside(self.channels@, physical_channels);
        }
        let mut frame: usize = 0;
        while frame < frames
            invariant
                frame <= frames,
                n == self.channels@.len(),
                physical_channels > 0,
                forall|i: int|
                    0 <= i < self.channels@.len() ==> #[trigger] self.channels@[i]
                        < physical_channels,
                source == logical@.len(),
                room == physical@.len(),
                physical@.len() == old(physical)@.len(),
                frames * physical_channels <= room,
                frames * n <= source,
                physical@ =~= mixed_block(
                    self.channels@,
                    logical@,
                    physical_channels as int,
                    frame as int,
                    old(physical)@,
                ),
            decreases frames - frame,
        {
            proof {
                lemma_frame_fits(frame as int, frames as int, physical_channels as int);
                lemma_frame_fits(frame as int, frames as int, n as int);
            }
            let to: usize = frame * physical_channels;
            let from: usize = frame * n;
            let ghost start = physical@;
            let mut c: usize = 0;
            while c < n
                invariant
                    c <= n,
                    n == self.channels@.len(),
                    forall|i: int|
                        0 <= i < self.channels@.len() ==> #[trigger] self.channels@[i]
                            < physical_channels,
                    source == logical@.len(),
                    room == physical@.len(),
                    start.len() == physical@.len(),
                    to + physical_channels <= room,
                    from + n <= source,
                    forall|k: int|
                        0 <= k < physical@.len() ==> #[trigger] physical@[k] == if to <= k < to
                            + physical_channels {
                            mixed_sample(
                                self.channels@.take(c as int),
                                logical@,
                                from as int,
                                k - to,
                                start[k],
                            )
                        } else {
                            start[k]
                        },
                decreases n - c,
            {
                let target: usize = self.channels[c];
                let ghost before = physical@;
                physical[to + target] = add_saturating(physical[to + target], logical[from + c]);
                proof {
                    let longer = self.channels@.take(c + 1);
                    assert(longer.drop_last() =~= self.channels@.take(c as int));
                    assert(longer.last() == target);
                }
                c = c + 1;
            }
            proof {
                assert(self.channels@.take(c as int) =~= self.channels@);
                let next = mixed_block(
                    self.channels@,
                    logical@,
                    physical_channels as int,
                    frame + 1,
                    old(physical)@,
                );
                assert forall|k: int| 0 <= k < physical@.len() implies physical@[k] == next[k] by {
                    if to <= k < to + physical_channels {
                        lemma_inside_frame(k, frame as int, physical_channels as int);
                        assert(start[k] == old(physical)@[k]);
                    }
                }
                assert(physical@ =~= next);
            }
            frame = frame + 1;
        }
        Ok(())
    }
}

/// A channel found outside stays the first one when more channels follow.
pub proof fn lemma_outside_stays(channels: Seq<usize>, physical_channels: usize, k: int)
    requires
        0 <= k <= channels.len(),
        first_outside(channels.take(k), physical_channels) is Some,
    ensures
        first_outside(channels, physical_channels) == first_outside(
            channels.take(k),
            physical_channels,
        ),
    decreases channels.len(),
{
    if k < channels.len() {
        assert(channels.drop_last().take(k) =~= channels.take(k));
        lemma_outside_stays(channels.drop_last(), physical_channels, k);
    } else {
        assert(channels.take(k) =~= channels);
    }
}

/// The port tables of both directions.
#[derive(Clone, Debug, PartialEq, Eq)]
pub struct RoutingTable {
    playback: Vec<CompiledPort>,
    capture: Vec<CompiledPort>,
}

/// The models of compiled ports.
pub open spec fn compiled_models(ports: Seq<CompiledPort>) -> Seq<PortModel> {
    Seq::new(ports.len(), |i: int| ports[i].model())
}

/// The model that a configured port compiles to.
pub open spec fn configured_model(port: PortConfig) -> PortModel {
    PortModel {
        id: port.id@,
        name: port.name@,
        channels: Seq::new(port.channels@.len(), |i: int| port.channels@[i] as usize),
    }
}

pub open spec fn configured_models(ports: Seq<PortConfig>) -> Seq<PortModel> {
    Seq::new(ports.len(), |i: int| configured_model(ports[i]))
}

/// The first port with the given id.
pub open spec fn first_port(ports: Seq<PortModel>, id: Seq<char>) -> Option<int>
    decreases ports.len(),
{
    if ports.len() == 0 {
        None
    } else {
        match first_port(ports.drop_last(), id) {
            Some(i) => Some(i),
            None => if ports.last().id == id {
                Some(ports.len() - 1)
            } else {
                None
            },
        }
    }
}

proof fn lemma_first_port_stays(ports: Seq<PortModel>, id: Seq<char>, k: int)
    requires
        0 <= k <= ports.len(),
        first_port(ports.take(k), id) is Some,
    ensures
        first_port(ports, id) == first_port(ports.take(k), id),
    decreases ports.len(),
{
    if k < ports.len() {
        assert(ports.drop_last().take(k) =~= ports.take(k));
        lemma_first_port_stays(ports.drop_last(), id, k);
    } else {
        assert(ports.take(k) =~= ports);
    }
}

fn compile_ports(ports: &Vec<PortConfig>) -> (compiled: Vec<CompiledPort>)
    ensures
        compiled_models(compiled@) == configured_models(ports@),
{
    let mut compiled: Vec<CompiledPort> = Vec::new();
    let mut i: usize = 0;
    while i < ports.len()
        invariant
            i <= ports@.len(),
            compiled@.len() == i,
            forall|k: int|
                0 <= k < i ==> #[trigger] compiled@[k].model() == configured_model(ports@[k]),
        decreases ports.len() - i,
    {
        let port = &ports[i];
        let mut channels: Vec<usize> = Vec::new();
        let mut c: usize = 0;
        while c < port.channels.len()
            invariant
                c <= port.channels@.len(),
                channels@.len() == c,
                forall|k: int| 0 <= k < c ==> #[trigger] channels@[k] == port.channels@[k],
            decreases port.channels.len() - c,
        {
            channels.push(port.channels[c] as usize);
            c = c + 1;
        }
        let done = CompiledPort { id: port.id.clone(), name: port.name.clone(), channels };
        assert(done.model() =~= configured_model(ports@[i as int]));
        compiled.push(done);
        i = i + 1;
    }
    assert(compiled_models(compiled@) =~= configured_models(ports@));
    compiled
}

fn find_port<'a>(ports: &'a Vec<CompiledPort>, id: &str) -> (found: Option<&'a CompiledPort>)
    ensures
        match first_port(compiled_models(ports@), id@) {
            Some(i) => 0 <= i < ports@.len() && found == Some(&ports@[i]) && ports@[i].model().id
                == id@,
            None => found is None,
        },
{
    let ghost models = compiled_models(ports@);
    let wanted: String = id.to_owned();
    let mut i: usize = 0;
    while i < ports.len()
        invariant
            i <= ports@.len(),
            wanted@ == id@,
            models == compiled_models(ports@),
            first_port(models.take(i as int), id@) is None,
        decreases ports.len() - i,
    {
        assert(models.take(i + 1).drop_last() =~= models.take(i as int));
        if ports[i].id == wanted {
            proof {
                lemma_first_port_stays(models, id@, i + 1);
            }
            return Some(&ports[i]);
        }
        i = i + 1;
    }
    assert(models.take(i as int) =~= models);
    None
}

impl RoutingTable {
    pub closed spec fn playback_models(&self) -> Seq<PortModel> {
        compiled_models(self.playback@)
    }

    pub closed spec fn capture_models(&self) -> Seq<PortModel> {
        compiled_models(self.capture@)
    }

    /// Compiles the ports of a profile; `validation` is what came of the profile's own validation.
    pub fn compile(profile: &Profile, validation: Result<(), String>) -> (result: Result<
        Self,
        RoutingError,
    >)
        ensures
            match result {
                Ok(table) => {
                    &&& validation is Ok
                    &&& table.playback_models() == configured_models(profile.ports.playback@)
                    &&& table.capture_models() == configured_models(profile.ports.capture@)
                },
                Err(e) => validation is Err && e == RoutingError::Profile(validation->Err_0),
            },
    {
        if let Err(reason) = validation {
            return Err(RoutingError::Profile(reason));
        }
        Ok(
            RoutingTable {
                playback: compile_ports(&profile.ports.playback),
                capture: compile_ports(&profile.ports.capture),
            },
        )
    }

    pub fn playback_ports(&self) -> (ports: &[CompiledPort])
        ensures
            compiled_models(ports@) == self.playback_models(),
    {
        self.playback.as_slice()
    }

    pub fn capture_ports(&self) -> (ports: &[CompiledPort])
        ensures
            compiled_models(ports@) == self.capture_models(),
    {
        self.capture.as_slice()
    }

    /// The first playback port with the given id.
    pub fn find_playback(&self, id: &str) -> (found: Option<&CompiledPort>)
        ensures
            match first_port(self.playback_models(), id@) {
                Some(i) => found matches Some(port) && port.model() == self.playback_models()[i],
                None => found is None,
            },
    {
        find_port(&self.playback, id)
    }

    /// The first capture port with the given id.
    pub fn find_capture(&self, id: &str) -> (found: Option<&CompiledPort>)
        ensures
            match first_port(self.capture_models(), id@) {
                Some(i) => found matches Some(port) && port.model() == self.capture_models()[i],
                None => found is None,
            },
    {
        find_port(&self.capture, id)
    }
}

proof fn lemma_sole_source(channels: Seq<usize>, c: int)
    requires
        0 <= c < channels.len(),
        channels.no_duplicates(),
    ensures
        last_source(channels, channels[c] as int) == Some(c),
    decreases channels.len(),
{
    if c < channels.len() - 1 {
        assert(channels.last() == channels[channels.len() - 1]);
        assert(channels.drop_last()[c] == channels[c]);
        lemma_sole_source(channels.drop_last(), c);
    }
}

/// What is written through a port is read back through it: for a port whose channels are
/// different, reading after writing gives the samples that were written, and what the reader had
/// beyond them.
pub proof fn port_reads_back_what_it_wrote<T>(
    channels: Seq<usize>,
    logical: Seq<T>,
    physical_channels: usize,
    frames: usize,
    physical: Seq<T>,
    before: Seq<T>,
)
    requires
        channels.no_duplicates(),
        routing_error(
            channels,
            physical.len(),
            physical_channels,
            frames,
            logical.len(),
        ) is None,
        before.len() >= frames * channels.len(),
    ensures
        read_block(
            channels,
            written_block(
                channels,
                logical,
                physical_channels as int,
                frames as int,
                physical,
            ),
            physical_channels as int,
            frames as int,
            before,
        ) == logical.take((frames * channels.len()) as int) + before.skip(
            (frames * channels.len()) as int,
        ),
{
    let n = channels.len() as int;
    let pc = physical_channels as int;
    let used = frames * n;
    let written = written_block(channels, logical, pc, frames as int, physical);
    let read = read_block(channels, written, pc, frames as int, before);
    lemma_none_outside(channels, physical_channels);
    assert(used >= 0) by (nonlinear_arith)
        requires
            used == frames * n,
            n >= 0,
    ;
    assert forall|k: int| 0 <= k < used implies read[k] == logical[k] by {
        assert(n > 0) by {
            if n == 0 {
                assert(frames * n == 0);
            }
        }
        let frame = k / n;
        let c = k % n;
        vstd::arithmetic::div_mod::lemma_fundamental_div_mod(k, n);
        vstd::arithmetic::div_mod::lemma_mod_bound(k, n);
        assert(0 <= frame < frames) by (nonlinear_arith)
            requires
                0 <= k < frames * n,
                n > 0,
                k == n * frame + c,
                0 <= c < n,
        ;
        lemma_frame_fits(frame, frames as int, pc);
        let at = frame * pc + channels[c];
        lemma_index(frame, pc, channels[c] as int);
        lemma_sole_source(channels, c);
        assert(n * frame == frame * n) by (nonlinear_arith);
        assert(written[at] == logical[frame * n + c]);
    }
    assert(read =~= logical.take(used) + before.skip(used));
}

proof fn lemma_no_source(
    channels: Seq<usize>,
    target: int,
    logical: Seq<i32>,
    at: int,
    sample: i32,
)
    requires
        forall|i: int| 0 <= i < channels.len() ==> #[trigger] channels[i] != target,
    ensures
        last_source(channels, target) is None,
        mixed_sample(channels, logical, at, target, sample) == sample,
    decreases channels.len(),
{
    if channels.len() > 0 {
        assert forall|i: int| 0 <= i < channels.drop_last().len() implies
            #[trigger] channels.drop_last()[i] != target by {
            assert(channels.drop_last()[i] == channels[i]);
        }
        lemma_no_source(channels.drop_last(), target, logical, at, sample);
        assert(channels[channels.len() - 1] != target);
    }
}

/// Device channels that a port does not have are left alone by writing and by mixing.
pub proof fn unmapped_channels_are_untouched(
    channels: Seq<usize>,
    logical: Seq<i32>,
    physical_channels: usize,
    frames: usize,
    physical: Seq<i32>,
    k: int,
)
    requires
        physical_channels > 0,
        0 <= k < physical.len(),
        forall|i: int|
            0 <= i < channels.len() ==> #[trigger] channels[i] != k % physical_channels as int,
    ensures
        written_block(
            channels,
            logical,
            physical_channels as int,
            frames as int,
            physical,
        )[k] == physical[k],
        mixed_block(
            channels,
            logical,
            physical_channels as int,
            frames as int,
            physical,
        )[k] == physical[k],
{
    let at = (k / physical_channels as int) * channels.len();
    lemma_no_source(channels, k % physical_channels as int, logical, at, physical[k]);
}

proof fn lemma_sole_source_is_added(
    channels: Seq<usize>,
    logical: Seq<i32>,
    at: int,
    c: int,
    sample: i32,
)
    requires
        0 <= c < channels.len(),
        channels.no_duplicates(),
    ensures
        ({
            let sum = sample + logical[at + c];
            let mixed = mixed_sample(channels, logical, at, channels[c] as int, sample);
            &&& -0x8000_0000 <= sum <= 0x7fff_ffff ==> mixed == sum
            &&& sum > 0x7fff_ffff ==> mixed == 0x7fff_ffff
            &&& sum < -0x8000_0000 ==> mixed == -0x8000_0000
        }),
    decreases channels.len(),
{
    let earlier = channels.drop_last();
    if c < channels.len() - 1 {
        assert(channels.last() == channels[channels.len() - 1]);
        assert(earlier[c] == channels[c]);
        lemma_sole_source_is_added(earlier, logical, at, c, sample);
    } else {
        assert forall|i: int| 0 <= i < earlier.len() implies #[trigger] earlier[i]
            != channels[c] by {
            assert(earlier[i] == channels[i]);
        }
        lemma_no_source(earlier, channels[c] as int, logical, at, sample);
    }
}

/// Mixing adds: for a port whose channels are different, the device sample of a frame and a channel
/// of the port becomes the sum of what it was and of the port's sample, whatever the signs of the
/// two are, and the nearest end of the range where the sum lies beyond it.
pub proof fn mixing_adds_the_port_to_the_device(
    channels: Seq<usize>,
    logical: Seq<i32>,
    physical_channels: usize,
    frames: usize,
    physical: Seq<i32>,
    frame: int,
    c: int,
)
    requires
        channels.no_duplicates(),
        routing_error(
            channels,
            physical.len(),
            physical_channels,
            frames,
            logical.len(),
        ) is None,
        0 <= frame < frames,
        0 <= c < channels.len(),
    ensures
        ({
            let mixed = mixed_block(
                channels,
                logical,
                physical_channels as int,
                frames as int,
                physical,
            );
            let at = frame * physical_channels + channels[c];
            let sum = physical[at] + logical[frame * channels.len() + c];
            &&& mixed.len() == physical.len()
            &&& -0x8000_0000 <= sum <= 0x7fff_ffff ==> mixed[at] == sum
            &&& sum > 0x7fff_ffff ==> mixed[at] == 0x7fff_ffff
            &&& sum < -0x8000_0000 ==> mixed[at] == -0x8000_0000
        }),
{
    let pc = physical_channels as int;
    lemma_none_outside(channels, physical_channels);
    lemma_frame_fits(frame, frames as int, pc);
    lemma_index(frame, pc, channels[c] as int);
    lemma_sole_source_is_added(
        channels,
        logical,
        frame * channels.len(),
        c,
        physical[frame * pc + channels[c]],
    );
}

/// Silence mixed in changes nothing, and what is mixed into silence is the port's own block: for a
/// port whose channels are different it reads back what it mixed.
pub proof fn mixing_into_silence_gives_the_port(
    channels: Seq<usize>,
    logical: Seq<i32>,
    physical_channels: usize,
    frames: usize,
    physical: Seq<i32>,
    frame: int,
    c: int,
)
    requires
        channels.no_duplicates(),
        routing_error(
            channels,
            physical.len(),
            physical_channels,
            frames,
            logical.len(),
        ) is None,
        0 <= frame < frames,
        0 <= c < channels.len(),
    ensures
        ({
            let pc = physical_channels as int;
            let at = frame * pc + channels[c];
            let from = frame * channels.len() + c;
            &&& mixed_block(channels, logical, pc, frames as int, silence(physical.len()))[at]
                == logical[from]
            &&& mixed_block(channels, silence(logical.len()), pc, frames as int, physical)[at]
                == physical[at]
        }),
{
    let pc = physical_channels as int;
    let n = channels.len() as int;
    lemma_none_outside(channels, physical_channels);
    lemma_frame_fits(frame, frames as int, pc);
    lemma_frame_fits(frame, frames as int, n);
    mixing_adds_the_port_to_the_device(
        channels,
        logical,
        physical_channels,
        frames,
        silence(physical.len()),
        frame,
        c,
    );
    mixing_adds_the_port_to_the_device(
        channels,
        silence(logical.len()),
        physical_channels,
        frames,
        physical,
        frame,
        c,
    );
}

/// The samples of a frame of a port that go to one device channel, added up.
pub open spec fn added_to(channels: Seq<usize>, logical: Seq<i32>, at: int, target: int) -> int
    decreases channels.len(),
{
    if channels.len() == 0 {
        0
    } else {
        added_to(channels.drop_last(), logical, at, target) + if channels.last() == target {
            logical[at + channels.len() - 1] as int
        } else {
            0
        }
    }
}

/// A device channel that several port channels go to takes all of them: where no sum on the way is
/// out of range, the sample grows by all of their samples.
pub proof fn mixing_adds_every_source(
    channels: Seq<usize>,
    logical: Seq<i32>,
    at: int,
    target: int,
    sample: i32,
)
    requires
        forall|k: int|
            0 <= k <= channels.len() ==> -0x8000_0000 <= sample + #[trigger] added_to(
                channels.take(k),
                logical,
                at,
                target,
            ) <= 0x7fff_ffff,
    ensures
        mixed_sample(channels, logical, at, target, sample) == sample + added_to(
            channels,
            logical,
            at,
            target,
        ),
    decreases channels.len(),
{
    assert(channels.take(channels.len() as int) =~= channels);
    if channels.len() > 0 {
        let earlier = channels.drop_last();
        assert forall|k: int| 0 <= k <= earlier.len() implies -0x8000_0000 <= sample
            + #[trigger] added_to(earlier.take(k), logical, at, target) <= 0x7fff_ffff by {
            assert(earlier.take(k) =~= channels.take(k));
        }
        mixing_adds_every_source(earlier, logical, at, target, sample);
        assert(-0x8000_0000 <= sample + added_to(
            channels.take(channels.len() as int),
            logical,
            at,
            target,
        ) <= 0x7fff_ffff);
    }
}

proof fn lemma_last_source_is_last(channels: Seq<usize>, c: int)
    requires
        0 <= c < channels.len(),
        forall|i: int| c < i < channels.len() ==> #[trigger] channels[i] != channels[c],
    ensures
        last_source(channels, channels[c] as int) == Some(c),
    decreases channels.len(),
{
    if c < channels.len() - 1 {
        assert(channels[channels.len() - 1] != channels[c]);
        let earlier = channels.drop_last();
        assert forall|i: int| c < i < earlier.len() implies #[trigger] earlier[i]
            != earlier[c] by {
            assert(earlier[i] == channels[i]);
        }
        lemma_last_source_is_last(earlier, c);
    }
}

/// Copying moves every sample between its place in the port block and its place in the device
/// frames: frame by frame and channel by channel, in both directions, and where several port
/// channels go to one device channel the last of them stays.
pub proof fn copying_moves_samples_between_their_places<T>(
    channels: Seq<usize>,
    logical: Seq<T>,
    physical_channels: usize,
    frames: usize,
    physical: Seq<T>,
    frame: int,
    c: int,
)
    requires
        routing_error(
            channels,
            physical.len(),
            physical_channels,
            frames,
            logical.len(),
        ) is None,
        0 <= frame < frames,
        0 <= c < channels.len(),
    ensures
        ({
            let pc = physical_channels as int;
            let outside = frame * pc + channels[c];
            let inside = frame * channels.len() + c;
            let read = read_block(channels, physical, pc, frames as int, logical);
            let written = written_block(channels, logical, pc, frames as int, physical);
            &&& read.len() == logical.len()
            &&& written.len() == physical.len()
            &&& read[inside] == physical[outside]
            &&& (forall|i: int| c < i < channels.len() ==> #[trigger] channels[i] != channels[c])
                ==> written[outside] == logical[inside]
        }),
{
    let pc = physical_channels as int;
    let n = channels.len() as int;
    lemma_none_outside(channels, physical_channels);
    lemma_frame_fits(frame, frames as int, pc);
    lemma_frame_fits(frame, frames as int, n);
    lemma_index(frame, pc, channels[c] as int);
    lemma_index(frame, n, c);
    if forall|i: int| c < i < channels.len() ==> #[trigger] channels[i] != channels[c] {
        lemma_last_source_is_last(channels, c);
    }
}

/// What lies beyond the moved frames keeps its value, on either side.
pub proof fn samples_beyond_the_frames_stay<T>(
    channels: Seq<usize>,
    logical: Seq<T>,
    physical_channels: int,
    frames: int,
    physical: Seq<T>,
    k: int,
)
    requires
        0 <= k,
    ensures
        frames * channels.len() <= k < logical.len() ==> read_block(
            channels,
            physical,
            physical_channels,
            frames,
            logical,
        )[k] == logical[k],
        frames * physical_channels <= k < physical.len() ==> written_block(
            channels,
            logical,
            physical_channels,
            frames,
            physical,
        )[k] == physical[k],
{
}

/// The same of mixing.
pub proof fn mixing_stays_within_the_frames(
    channels: Seq<usize>,
    logical: Seq<i32>,
    physical_channels: int,
    frames: int,
    physical: Seq<i32>,
    k: int,
)
    requires
        frames * physical_channels <= k,
        0 <= k < physical.len(),
    ensures
        mixed_block(channels, logical, physical_channels, frames, physical)[k] == physical[k],
{
}

proof fn lemma_first_outside_is_first(channels: Seq<usize>, physical_channels: usize)
    ensures
        match first_outside(channels, physical_channels) {
            None => forall|i: int|
                0 <= i < channels.len() ==> #[trigger] channels[i] < physical_channels,
            Some(channel) => exists|i: int|
                0 <= i < channels.len() && #[trigger] channels[i] == channel && channel
                    >= physical_channels && (forall|j: int|
                    0 <= j < i ==> #[trigger] channels[j] < physical_channels),
        },
    decreases channels.len(),
{
    if channels.len() > 0 {
        let earlier = channels.drop_last();
        lemma_first_outside_is_first(earlier, physical_channels);
        match first_outside(earlier, physical_channels) {
            Some(channel) => {
                let i = choose|i: int|
                    0 <= i < earlier.len() && #[trigger] earlier[i] == channel && channel
                        >= physical_channels && (forall|j: int|
                        0 <= j < i ==> #[trigger] earlier[j] < physical_channels);
                assert(channels[i] == channel);
                assert forall|j: int| 0 <= j < i implies #[trigger] channels[j]
                    < physical_channels by {
                    assert(earlier[j] == channels[j]);
                }
            },
            None => {
                assert forall|j: int| 0 <= j < channels.len() - 1 implies #[trigger] channels[j]
                    < physical_channels by {
                    assert(earlier[j] == channels[j]);
                }
                assert(channels[channels.len() - 1] == channels.last());
            },
        }
    }
}

/// A block can be moved exactly when the device has channels, every port channel is one of them,
/// and both buffers hold the frames. A refusal names what is wrong: the first channel that the
/// device does not have, or the buffer that is too small with what it holds and what it would
/// have to.
pub proof fn a_block_is_refused_for_what_is_missing(
    channels: Seq<usize>,
    physical_len: usize,
    physical_channels: usize,
    frames: usize,
    logical_len: usize,
)
    ensures
        ({
            let refusal = routing_error(
                channels,
                physical_len as nat,
                physical_channels,
                frames,
                logical_len as nat,
            );
            &&& refusal is None <==> {
                &&& physical_channels > 0
                &&& forall|i: int|
                    0 <= i < channels.len() ==> #[trigger] channels[i] < physical_channels
                &&& frames * physical_channels <= physical_len
                &&& frames * channels.len() <= logical_len
            }
            &&& refusal matches Some(RoutingError::PhysicalBufferTooSmall { actual, required })
                ==> actual == physical_len && required == frames * physical_channels && actual
                < required
            &&& refusal matches Some(RoutingError::LogicalBufferTooSmall { actual, required })
                ==> actual == logical_len && required == frames * channels.len() && actual
                < required && frames * physical_channels <= physical_len
            &&& refusal matches Some(
                RoutingError::PhysicalChannelOutOfRange { channel, physical_channels: has },
            ) ==> has == physical_channels && exists|i: int|
                0 <= i < channels.len() && #[trigger] channels[i] == channel && channel >= has && (
                forall|j: int| 0 <= j < i ==> #[trigger] channels[j] < has)
            &&& physical_channels == 0 ==> refusal == Some(RoutingError::ZeroPhysicalChannels)
        }),
{
    lemma_first_outside_is_first(channels, physical_channels);
}

/// A port is found by its id: the first port that has it, and none where no port has it.
pub proof fn a_port_is_found_by_its_id(ports: Seq<PortModel>, id: Seq<char>)
    ensures
        match first_port(ports, id) {
            Some(i) => 0 <= i < ports.len() && ports[i].id == id && forall|j: int|
                0 <= j < i ==> (#[trigger] ports[j]).id != id,
            None => forall|j: int| 0 <= j < ports.len() ==> (#[trigger] ports[j]).id != id,
        },
    decreases ports.len(),
{
    if ports.len() > 0 {
        let earlier = ports.drop_last();
        a_port_is_found_by_its_id(earlier, id);
        assert forall|j: int| 0 <= j < earlier.len() implies ports[j] == earlier[j] by {}
        assert(ports[ports.len() - 1] == ports.last());
        if first_port(earlier, id) is Some {
            let i = first_port(earlier, id)->0;
            assert(ports[i] == earlier[i]);
            assert forall|j: int| 0 <= j < i implies (#[trigger] ports[j]).id != id by {
                assert(earlier[j] == ports[j]);
            }
        } else {
            assert forall|j: int| 0 <= j < earlier.len() implies (#[trigger] ports[j]).id != id by {
                assert(earlier[j] == ports[j]);
            }
        }
    }
}

/// A compiled port keeps its place, its id, its name and its channels in their order.
pub proof fn compiling_keeps_every_port(ports: Seq<PortConfig>, i: int, c: int)
    requires
        0 <= i < ports.len(),
        0 <= c < ports[i].channels@.len(),
    ensures
        configured_models(ports).len() == ports.len(),
        configured_models(ports)[i].id == ports[i].id@,
        configured_models(ports)[i].name == ports[i].name@,
        configured_models(ports)[i].channels.len() == ports[i].channels@.len(),
        configured_models(ports)[i].channels[c] == ports[i].channels@[c],
{
}

/// Ports are mixed on top of each other: where two ports with channels of their own both go to one
/// device channel, the device sample grows by both of their samples, in either order, as long as
/// no sum is out of range.
pub proof fn ports_are_mixed_on_top_of_each_other(
    first: Seq<usize>,
    second: Seq<usize>,
    first_block: Seq<i32>,
    second_block: Seq<i32>,
    physical_channels: usize,
    frames: usize,
    physical: Seq<i32>,
    frame: int,
    a: int,
    b: int,
)
    requires
        first.no_duplicates(),
        second.no_duplicates(),
        routing_error(
            first,
            physical.len(),
            physical_channels,
            frames,
            first_block.len(),
        ) is None,
        routing_error(
            second,
            physical.len(),
            physical_channels,
            frames,
            second_block.len(),
        ) is None,
        0 <= frame < frames,
        0 <= a < first.len(),
        0 <= b < second.len(),
        first[a] == second[b],
        ({
            let sample = physical[frame * physical_channels + first[a]];
            let one = first_block[frame * first.len() + a];
            let other = second_block[frame * second.len() + b];
            &&& -0x8000_0000 <= sample + one <= 0x7fff_ffff
            &&& -0x8000_0000 <= sample + other <= 0x7fff_ffff
            &&& -0x8000_0000 <= sample + one + other <= 0x7fff_ffff
        }),
    ensures
        ({
            let pc = physical_channels as int;
            let n = frames as int;
            let at = frame * pc + first[a];
            let sum = physical[at] + first_block[frame * first.len() + a] + second_block[frame
                * second.len() + b];
            &&& mixed_block(
                second,
                second_block,
                pc,
                n,
                mixed_block(first, first_block, pc, n, physical),
            )[at] == sum
            &&& mixed_block(
                first,
                first_block,
                pc,
                n,
                mixed_block(second, second_block, pc, n, physical),
            )[at] == sum
        }),
{
    let pc = physical_channels as int;
    let n = frames as int;
    let one = mixed_block(first, first_block, pc, n, physical);
    let other = mixed_block(second, second_block, pc, n, physical);
    mixing_adds_the_port_to_the_device(
        first,
        first_block,
        physical_channels,
        frames,
        physical,
        frame,
        a,
    );
    mixing_adds_the_port_to_the_device(
        second,
        second_block,
        physical_channels,
        frames,
        physical,
        frame,
        b,
    );
    mixing_adds_the_port_to_the_device(
        second,
        second_block,
        physical_channels,
        frames,
        one,
        frame,
        b,
    );
    mixing_adds_the_port_to_the_device(
        first,
        first_block,
        physical_channels,
        frames,
        other,
        frame,
        a,
    );
}

} // verus!
