//! Layout of the memory regions that the daemon shares with its clients.
//!
//! A region is a header, a ring of capture slots and a ring of playback slots of equal size. Each
//! slot is a slot header followed by one period of interleaved 32-bit samples.
use vstd::prelude::*;
use crate::protocol::messages::{ProtocolError, SharedRegionInfo};

verus! {

/// The bytes `SASH`, read as a little-endian number.
pub const SHARED_MAGIC: u32 = 0x4853_4153;

pub const SHARED_VERSION: u16 = 9;

pub const SHARED_SLOT_COUNT: u32 = 8;

pub const SHARED_SLOT_FREE: u32 = 0;

pub const SHARED_SLOT_READY: u32 = 1;

pub const SHARED_SLOT_WRITING: u32 = 2;

pub const SHARED_SLOT_READING: u32 = 3;

pub const SHARED_CLIENT_IDLE: u32 = 0;

pub const SHARED_CLIENT_STARTING: u32 = 1;

pub const SHARED_CLIENT_RUNNING: u32 = 2;

pub const SHARED_ACTIVATION_PENDING: u64 = 0;

pub const SHARED_ACTIVATION_CLAIMED: u64 = 1;

pub const SHARED_ACTIVATION_READY: u64 = 2;

pub const SHARED_ALIGNMENT: usize = 64;

/// Size of the region header in memory: its fields in declaration order, each at its natural
/// alignment.
pub const SHARED_REGION_HEADER_BYTES: usize = 184;

/// Size and alignment of a slot header in memory.
pub const SHARED_SLOT_HEADER_BYTES: usize = 64;

/// Size of one sample.
pub const SAMPLE_BYTES: usize = 4;

/// What stands at the front of a region.
#[derive(Clone, Copy, Debug, PartialEq, Eq, Structural)]
pub struct SharedRegionHeader {
    pub magic: u32,
    pub version: u16,
    pub header_size: u16,
    pub total_size: u64,
    pub period_frames: u32,
    pub playback_channels: u32,
    pub capture_channels: u32,
    pub slot_count: u32,
    pub slot_stride: u64,
    pub capture_offset: u64,
    pub playback_offset: u64,
    pub cycle_sequence: u64,
    pub playback_sequence: u64,
    pub lifecycle_generation: u64,
    pub hardware_generation: u64,
    pub client_state: u32,
    pub activation_state: u64,
    pub start_sequence: u64,
    pub capture_discontinuities: u64,
    pub client_expired_capture_blocks: u64,
    pub client_expired_playback_periods: u64,
    pub client_playback_submit_failures: u64,
    pub client_playback_xruns: u64,
    pub client_playback_sequence: u64,
    pub client_realtime_failures: u64,
    pub client_callback_overruns: u64,
    pub client_callback_max_nanos: u64,
}

/// What stands at the front of a slot.
#[derive(Clone, Copy, Debug, PartialEq, Eq, Structural)]
pub struct SharedSlotHeader {
    pub state: u32,
    pub reserved: u32,
    pub sequence: u64,
    pub published_nanos: u64,
}

/// What a layout is made for.
#[verifier::ext_equal]
pub struct SharedRegionShape {
    pub period_frames: u32,
    pub playback_channels: u32,
    pub capture_channels: u32,
    pub slot_count: u32,
}

/// Offsets and sizes of a region of a given shape.
#[derive(Clone, Copy, Debug, PartialEq, Eq)]
pub struct SharedRegionLayout {
    size: usize,
    period_frames: u32,
    playback_channels: u32,
    capture_channels: u32,
    slot_count: u32,
    slot_stride: usize,
    capture_offset: usize,
    playback_offset: usize,
}

/// The least multiple of `alignment` that is not below `value`.
pub open spec fn aligned_up(value: int, alignment: int) -> int {
    ((value + alignment - 1) / alignment) * alignment
}

/// The shape has frames, at least one channel and at least one slot.
pub open spec fn shape_is_usable(shape: SharedRegionShape) -> bool {
    &&& shape.period_frames > 0
    &&& shape.playback_channels > 0 || shape.capture_channels > 0
    &&& shape.slot_count > 0
}

/// Bytes of audio that one slot can hold: a period of the wider direction.
pub open spec fn shape_audio_bytes(shape: SharedRegionShape) -> int {
    let channels = if shape.playback_channels > shape.capture_channels {
        shape.playback_channels
    } else {
        shape.capture_channels
    };
    shape.period_frames * channels * SAMPLE_BYTES
}

/// Distance between neighbouring slots.
pub open spec fn shape_stride(shape: SharedRegionShape) -> int {
    aligned_up(SHARED_SLOT_HEADER_BYTES + shape_audio_bytes(shape), SHARED_ALIGNMENT as int)
}

/// Bytes of one ring.
pub open spec fn shape_ring_bytes(shape: SharedRegionShape) -> int {
    shape_stride(shape) * shape.slot_count
}

/// Where the capture ring begins.
pub open spec fn shape_capture_offset() -> int {
    aligned_up(SHARED_REGION_HEADER_BYTES as int, SHARED_ALIGNMENT as int)
}

/// Where the playback ring begins.
pub open spec fn shape_playback_offset(shape: SharedRegionShape) -> int {
    shape_capture_offset() + shape_ring_bytes(shape)
}

/// Bytes of the whole region.
pub open spec fn shape_size(shape: SharedRegionShape) -> int {
    shape_playback_offset(shape) + shape_ring_bytes(shape)
}

/// Where slot `index` of the ring at `ring_offset` begins.
pub open spec fn shape_slot_offset(
    shape: SharedRegionShape,
    ring_offset: int,
    index: int,
) -> int {
    ring_offset + index * shape_stride(shape)
}

proof fn lemma_aligned_up(value: int)
    requires
        0 <= value,
    ensures
        value <= aligned_up(value, SHARED_ALIGNMENT as int) < value + SHARED_ALIGNMENT,
        aligned_up(value, SHARED_ALIGNMENT as int) % (SHARED_ALIGNMENT as int) == 0,
        value % (SHARED_ALIGNMENT as int) == 0 ==> aligned_up(value, SHARED_ALIGNMENT as int)
            == value,
{
}

proof fn lemma_shape_sizes(shape: SharedRegionShape)
    requires
        shape_is_usable(shape),
    ensures
        0 < shape_audio_bytes(shape) < shape_stride(shape) <= shape_ring_bytes(shape),
        shape_stride(shape) % (SHARED_ALIGNMENT as int) == 0,
        shape_capture_offset() == 192,
{
    let channels = if shape.playback_channels > shape.capture_channels {
        shape.playback_channels
    } else {
        shape.capture_channels
    };
    assert(shape.period_frames * channels > 0) by (nonlinear_arith)
        requires
            shape.period_frames > 0,
            channels > 0,
    ;
    lemma_aligned_up(SHARED_SLOT_HEADER_BYTES + shape_audio_bytes(shape));
    let stride = shape_stride(shape);
    assert(stride <= stride * shape.slot_count) by (nonlinear_arith)
        requires
            stride > 0,
            shape.slot_count > 0,
    ;
}

/// Rounds `value` up to a multiple of `alignment`, unless the result does not fit.
fn align_up(value: usize, alignment: usize) -> (result: Result<usize, ProtocolError>)
    requires
        alignment > 0,
    ensures
        match result {
            Ok(aligned) => aligned == aligned_up(value as int, alignment as int),
            Err(e) => e == ProtocolError::LayoutOverflow && aligned_up(
                value as int,
                alignment as int,
            ) > usize::MAX,
        },
{
    let remainder: usize = value % alignment;
    proof {
        let v = value as int;
        let a = alignment as int;
        let r = remainder as int;
        vstd::arithmetic::div_mod::lemma_fundamental_div_mod(v, a);
        let q = v / a;
        if r == 0 {
            assert(v + a - 1 == a * q + (a - 1));
            vstd::arithmetic::div_mod::lemma_fundamental_div_mod_converse(v + a - 1, a, q, a - 1);
        } else {
            assert(a * (q + 1) == a * q + a) by (nonlinear_arith);
            assert(v + a - 1 == a * (q + 1) + (r - 1));
            vstd::arithmetic::div_mod::lemma_fundamental_div_mod_converse(
                v + a - 1,
                a,
                q + 1,
                r - 1,
            );
        }
        assert(a * q == q * a) by (nonlinear_arith);
        assert(a * (q + 1) == (q + 1) * a) by (nonlinear_arith);
        assert(aligned_up(v, a) == if r == 0 {
            v
        } else {
            v + (a - r)
        });
    }
    if remainder == 0 {
        Ok(value)
    } else {
        match value.checked_add(alignment - remainder) {
            Some(aligned) => Ok(aligned),
            None => Err(ProtocolError::LayoutOverflow),
        }
    }
}

impl SharedRegionLayout {
    /// Offsets and sizes are those of the shape.
    #[verifier::type_invariant]
    closed spec fn consistent(self) -> bool {
        let shape = SharedRegionShape {
            period_frames: self.period_frames,
            playback_channels: self.playback_channels,
            capture_channels: self.capture_channels,
            slot_count: self.slot_count,
        };
        &&& shape_is_usable(shape)
        &&& self.size == shape_size(shape)
        &&& self.slot_stride == shape_stride(shape)
        &&& self.capture_offset == shape_capture_offset()
        &&& self.playback_offset == shape_playback_offset(shape)
    }

    /// The shape that the layout was made for.
    pub closed spec fn shape(&self) -> SharedRegionShape {
        SharedRegionShape {
            period_frames: self.period_frames,
            playback_channels: self.playback_channels,
            capture_channels: self.capture_channels,
            slot_count: self.slot_count,
        }
    }

    /// Lays out a region. Unusable shapes are malformed; others fail only when the region would
    /// not fit the address space.
    pub fn new(
        period_frames: u32,
        playback_channels: u32,
        capture_channels: u32,
        slot_count: u32,
    ) -> (result: Result<Self, ProtocolError>)
        ensures
            ({
                let shape = SharedRegionShape {
                    period_frames,
                    playback_channels,
                    capture_channels,
                    slot_count,
                };
                match result {
                    Ok(layout) => {
                        &&& layout.shape() == shape
                        &&& shape_is_usable(shape)
                        &&& shape_size(shape) <= usize::MAX
                    },
                    Err(e) => if shape_is_usable(shape) {
                        e == ProtocolError::LayoutOverflow && shape_size(shape) > usize::MAX
                    } else {
                        e == ProtocolError::MalformedPayload
                    },
                }
            }),
    {
        if period_frames == 0 || (playback_channels == 0 && capture_channels == 0) || slot_count
            == 0 {
            return Err(ProtocolError::MalformedPayload);
        }
        let ghost shape = SharedRegionShape {
            period_frames,
            playback_channels,
            capture_channels,
            slot_count,
        };
        let channels: u32 = if playback_channels > capture_channels {
            playback_channels
        } else {
            capture_channels
        };
        proof {
            lemma_shape_sizes(shape);
        }
        let max_samples: usize = match (period_frames as usize).checked_mul(channels as usize) {
            Some(samples) => samples,
            None => {
                return Err(ProtocolError::LayoutOverflow);
            },
        };
        let audio_bytes: usize = match max_samples.checked_mul(SAMPLE_BYTES) {
            Some(bytes) => bytes,
            None => {
                return Err(ProtocolError::LayoutOverflow);
            },
        };
        assert(audio_bytes == shape_audio_bytes(shape));
        let slot_bytes: usize = match SHARED_SLOT_HEADER_BYTES.checked_add(audio_bytes) {
            Some(bytes) => bytes,
            None => {
                proof {
                    lemma_aligned_up(SHARED_SLOT_HEADER_BYTES + shape_audio_bytes(shape));
                }
                return Err(ProtocolError::LayoutOverflow);
            },
        };
        let slot_stride: usize = match align_up(slot_bytes, SHARED_ALIGNMENT) {
            Ok(stride) => stride,
            Err(e) => {
                return Err(e);
            },
        };
        let capture_offset: usize = match align_up(
            SHARED_REGION_HEADER_BYTES,
            SHARED_ALIGNMENT,
        ) {
            Ok(offset) => offset,
            Err(e) => {
                return Err(e);
            },
        };
        let ring_bytes: usize = match slot_stride.checked_mul(slot_count as usize) {
            Some(bytes) => bytes,
            None => {
                return Err(ProtocolError::LayoutOverflow);
            },
        };
        let playback_offset: usize = match capture_offset.checked_add(ring_bytes) {
            Some(offset) => offset,
            None => {
                return Err(ProtocolError::LayoutOverflow);
            },
        };
        let size: usize = match playback_offset.checked_add(ring_bytes) {
            Some(size) => size,
            None => {
                return Err(ProtocolError::LayoutOverflow);
            },
        };
        Ok(
            SharedRegionLayout {
                size,
                period_frames,
                playback_channels,
                capture_channels,
                slot_count,
                slot_stride,
                capture_offset,
                playback_offset,
            },
        )
    }

    /// The description that clients are sent.
    pub fn info(&self) -> (info: SharedRegionInfo)
        ensures
            info == (SharedRegionInfo {
                size: shape_size(self.shape()) as u64,
                period_frames: self.shape().period_frames,
                playback_channels: self.shape().playback_channels,
                capture_channels: self.shape().capture_channels,
                slot_count: self.shape().slot_count,
                slot_stride: shape_stride(self.shape()) as u64,
                capture_offset: shape_capture_offset() as u64,
                playback_offset: shape_playback_offset(self.shape()) as u64,
            }),
            shape_size(self.shape()) <= u64::MAX,
            shape_is_usable(self.shape()),
            info.capture_offset == 192,
            info.playback_offset == 192 + info.slot_stride * info.slot_count,
            info.size == info.playback_offset + info.slot_stride * info.slot_count,
    {
        proof {
            use_type_invariant(self);
            lemma_shape_sizes(self.shape());
        }
        SharedRegionInfo {
            size: self.size as u64,
            period_frames: self.period_frames,
            playback_channels: self.playback_channels,
            capture_channels: self.capture_channels,
            slot_count: self.slot_count,
            slot_stride: self.slot_stride as u64,
            capture_offset: self.capture_offset as u64,
            playback_offset: self.playback_offset as u64,
        }
    }

    pub fn size(&self) -> (size: usize)
        ensures
            size == shape_size(self.shape()),
            shape_is_usable(self.shape()),
    {
        proof {
            use_type_invariant(self);
        }
        self.size
    }

    pub fn slot_stride(&self) -> (stride: usize)
        ensures
            stride == shape_stride(self.shape()),
            shape_is_usable(self.shape()),
    {
        proof {
            use_type_invariant(self);
        }
        self.slot_stride
    }

    pub fn capture_offset(&self) -> (offset: usize)
        ensures
            offset == shape_capture_offset(),
            shape_is_usable(self.shape()),
    {
        proof {
            use_type_invariant(self);
        }
        self.capture_offset
    }

    pub fn playback_offset(&self) -> (offset: usize)
        ensures
            offset == shape_playback_offset(self.shape()),
            shape_is_usable(self.shape()),
    {
        proof {
            use_type_invariant(self);
        }
        self.playback_offset
    }

    pub fn slot_count(&self) -> (count: usize)
        ensures
            count == self.shape().slot_count,
            shape_is_usable(self.shape()),
    {
        proof {
            use_type_invariant(self);
        }
        self.slot_count as usize
    }

    /// Where slot `index` of the ring at `ring_offset` begins; none when there is no such slot or
    /// the offset does not fit.
    pub fn slot_offset(&self, ring_offset: usize, index: usize) -> (offset: Option<usize>)
        ensures
            match offset {
                Some(at) => index < self.shape().slot_count && at == shape_slot_offset(
                    self.shape(),
                    ring_offset as int,
                    index as int,
                ),
                None => index >= self.shape().slot_count || shape_slot_offset(
                    self.shape(),
                    ring_offset as int,
                    index as int,
                ) > usize::MAX,
            },
    {
        proof {
            use_type_invariant(self);
        }
        if index >= self.slot_count as usize {
            return None;
        }
        match index.checked_mul(self.slot_stride) {
            Some(distance) => ring_offset.checked_add(distance),
            None => None,
        }
    }
}

impl SharedRegionHeader {
    /// The header of a fresh region: the layout, and every counter and state at zero.
    pub fn new(layout: &SharedRegionLayout) -> (header: Self)
        ensures
            header == (SharedRegionHeader {
                magic: SHARED_MAGIC,
                version: SHARED_VERSION,
                header_size: SHARED_REGION_HEADER_BYTES as u16,
                total_size: shape_size(layout.shape()) as u64,
                period_frames: layout.shape().period_frames,
                playback_channels: layout.shape().playback_channels,
                capture_channels: layout.shape().capture_channels,
                slot_count: layout.shape().slot_count,
                slot_stride: shape_stride(layout.shape()) as u64,
                capture_offset: shape_capture_offset() as u64,
                playback_offset: shape_playback_offset(layout.shape()) as u64,
                cycle_sequence: 0,
                playback_sequence: 0,
                lifecycle_generation: 0,
                hardware_generation: 0,
                client_state: SHARED_CLIENT_IDLE,
                activation_state: SHARED_ACTIVATION_PENDING,
                start_sequence: 0,
                capture_discontinuities: 0,
                client_expired_capture_blocks: 0,
                client_expired_playback_periods: 0,
                client_playback_submit_failures: 0,
                client_playback_xruns: 0,
                client_playback_sequence: 0,
                client_realtime_failures: 0,
                client_callback_overruns: 0,
                client_callback_max_nanos: 0,
            }),
            header.magic == 0x4853_4153,
            header.version == 9,
            header.header_size == 184,
            header.capture_offset == 192,
            header.playback_offset == 192 + header.slot_stride * header.slot_count,
            header.total_size == header.playback_offset + header.slot_stride * header.slot_count,
            header.client_state == 0,
            header.activation_state == 0,
    {
        let info = layout.info();
        SharedRegionHeader {
            magic: SHARED_MAGIC,
            version: SHARED_VERSION,
            header_size: SHARED_REGION_HEADER_BYTES as u16,
            total_size: info.size,
            period_frames: info.period_frames,
            playback_channels: info.playback_channels,
            capture_channels: info.capture_channels,
            slot_count: info.slot_count,
            slot_stride: info.slot_stride,
            capture_offset: info.capture_offset,
            playback_offset: info.playback_offset,
            cycle_sequence: 0,
            playback_sequence: 0,
            lifecycle_generation: 0,
            hardware_generation: 0,
            client_state: SHARED_CLIENT_IDLE,
            activation_state: SHARED_ACTIVATION_PENDING,
            start_sequence: 0,
            capture_discontinuities: 0,
            client_expired_capture_blocks: 0,
            client_expired_playback_periods: 0,
            client_playback_submit_failures: 0,
            client_playback_xruns: 0,
            client_playback_sequence: 0,
            client_realtime_failures: 0,
            client_callback_overruns: 0,
            client_callback_max_nanos: 0,
        }
    }
}

impl SharedSlotHeader {
    /// A free slot.
    pub fn new() -> (header: Self)
        ensures
            header == (SharedSlotHeader {
                state: SHARED_SLOT_FREE,
                reserved: 0,
                sequence: 0,
                published_nanos: 0,
            }),
    {
        SharedSlotHeader { state: SHARED_SLOT_FREE, reserved: 0, sequence: 0, published_nanos: 0 }
    }
}

impl Default for SharedSlotHeader {
    fn default() -> (header: Self)
        ensures
            header == (SharedSlotHeader {
                state: SHARED_SLOT_FREE,
                reserved: 0,
                sequence: 0,
                published_nanos: 0,
            }),
    {
        SharedSlotHeader::new()
    }
}

/// Slot headers begin at multiples of this.
pub fn shared_slot_header_alignment() -> (alignment: usize)
    ensures
        alignment == SHARED_SLOT_HEADER_BYTES,
{
    SHARED_SLOT_HEADER_BYTES
}

/// Rings and slots begin at aligned offsets.
pub proof fn layout_is_aligned(shape: SharedRegionShape, index: int)
    requires
        shape_is_usable(shape),
        0 <= index < shape.slot_count,
    ensures
        shape_capture_offset() % (SHARED_ALIGNMENT as int) == 0,
        shape_playback_offset(shape) % (SHARED_ALIGNMENT as int) == 0,
        shape_slot_offset(shape, shape_capture_offset(), index) % (SHARED_ALIGNMENT as int) == 0,
        shape_slot_offset(shape, shape_playback_offset(shape), index) % (SHARED_ALIGNMENT as int)
            == 0,
{
    lemma_shape_sizes(shape);
    let stride = shape_stride(shape);
    let blocks = stride / 64;
    assert(stride == 64 * blocks);
    assert(stride * shape.slot_count == 64 * (blocks * shape.slot_count)) by (nonlinear_arith)
        requires
            stride == 64 * blocks,
    ;
    assert(index * stride == 64 * (blocks * index)) by (nonlinear_arith)
        requires
            stride == 64 * blocks,
    ;
}

/// The header, the capture ring and the playback ring follow one another and fill the region;
/// within a ring every slot lies inside, holds its header and its audio, and ends before the next
/// begins.
pub proof fn layout_does_not_overlap(shape: SharedRegionShape, index: int)
    requires
        shape_is_usable(shape),
        0 <= index < shape.slot_count,
    ensures
        SHARED_REGION_HEADER_BYTES <= shape_capture_offset(),
        shape_slot_offset(shape, shape_capture_offset(), 0) == shape_capture_offset(),
        shape_slot_offset(shape, shape_capture_offset(), index) + shape_stride(shape)
            <= shape_playback_offset(shape),
        shape_slot_offset(shape, shape_playback_offset(shape), index) + shape_stride(shape)
            <= shape_size(shape),
        shape_slot_offset(shape, shape_capture_offset(), index) + shape_stride(shape)
            == shape_slot_offset(shape, shape_capture_offset(), index + 1),
        SHARED_SLOT_HEADER_BYTES + shape_audio_bytes(shape) <= shape_stride(shape),
{
    lemma_shape_sizes(shape);
    lemma_aligned_up(SHARED_SLOT_HEADER_BYTES + shape_audio_bytes(shape));
    let stride = shape_stride(shape);
    assert(index * stride + stride <= stride * shape.slot_count) by (nonlinear_arith)
        requires
            0 <= index < shape.slot_count,
            stride > 0,
    ;
    assert((index + 1) * stride == index * stride + stride) by (nonlinear_arith);
}

/// A layout that was made answers every slot of its own rings.
pub proof fn own_slots_have_offsets(shape: SharedRegionShape, index: int)
    requires
        shape_is_usable(shape),
        shape_size(shape) <= usize::MAX,
        0 <= index < shape.slot_count,
    ensures
        shape_slot_offset(shape, shape_capture_offset(), index) <= usize::MAX,
        shape_slot_offset(shape, shape_playback_offset(shape), index) <= usize::MAX,
{
    layout_does_not_overlap(shape, index);
    lemma_shape_sizes(shape);
}

/// A region is a header of 192 bytes, the capture ring and the playback ring, one behind the other.
/// Slots are as far apart as a header of 64 bytes and a period of the wider direction, in four bytes
/// a sample, need, rounded up to 64 bytes.
pub proof fn a_region_is_laid_out_in_order(shape: SharedRegionShape, index: int, ring: int)
    requires
        shape_is_usable(shape),
    ensures
        shape_capture_offset() == 192,
        shape_playback_offset(shape) == 192 + shape_stride(shape) * shape.slot_count,
        shape_size(shape) == 192 + shape_stride(shape) * shape.slot_count + shape_stride(shape)
            * shape.slot_count,
        shape_slot_offset(shape, ring, index) == ring + index * shape_stride(shape),
        shape_stride(shape) % 64 == 0,
        shape.playback_channels >= shape.capture_channels ==> 64 + shape.period_frames
            * shape.playback_channels * 4 <= shape_stride(shape) < 128 + shape.period_frames
            * shape.playback_channels * 4,
        shape.capture_channels >= shape.playback_channels ==> 64 + shape.period_frames
            * shape.capture_channels * 4 <= shape_stride(shape) < 128 + shape.period_frames
            * shape.capture_channels * 4,
{
    lemma_shape_sizes(shape);
    lemma_aligned_up(SHARED_SLOT_HEADER_BYTES + shape_audio_bytes(shape));
}

/// A shape is unusable exactly when it has no frame, no slot, or no channel in either direction.
pub proof fn an_unusable_shape_lacks_something(shape: SharedRegionShape)
    ensures
        !shape_is_usable(shape) <==> shape.period_frames == 0 || shape.slot_count == 0 || (
        shape.playback_channels == 0 && shape.capture_channels == 0),
{
}

/// The marks that both sides of a region go by.
pub proof fn the_marks_of_a_region()
    ensures
        SHARED_MAGIC == 0x4853_4153,
        SHARED_VERSION == 9,
        SHARED_SLOT_COUNT == 8,
        SHARED_SLOT_FREE == 0,
        SHARED_SLOT_READY == 1,
        SHARED_SLOT_WRITING == 2,
        SHARED_SLOT_READING == 3,
        SHARED_CLIENT_IDLE == 0,
        SHARED_CLIENT_STARTING == 1,
        SHARED_CLIENT_RUNNING == 2,
        SHARED_ACTIVATION_PENDING == 0,
        SHARED_ACTIVATION_CLAIMED == 1,
        SHARED_ACTIVATION_READY == 2,
        SHARED_ALIGNMENT == 64,
        SHARED_REGION_HEADER_BYTES == 184,
        SHARED_SLOT_HEADER_BYTES == 64,
        SAMPLE_BYTES == 4,
{
}

} // verus!
