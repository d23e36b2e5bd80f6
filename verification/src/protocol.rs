//! The control protocol: framed requests and responses, and the layout of shared regions.
pub mod codec;
pub mod messages;
pub mod payload;
pub mod shared;
pub mod wire;

pub use codec::{
    decode_request, decode_response, encode_request, encode_response, read_request, read_response,
    write_request, write_response, ByteReader,
};
pub use messages::{
    DeviceInfo, ErrorCode, IoErrorKind, PortDirection, PortInfo, ProtocolError, Request, Response,
    SharedPlaybackPortStats, SharedRegionInfo, Stats, FEATURE_PRO, FEATURE_SHARED,
    MAX_FRAME_PAYLOAD, PROTOCOL_MAGIC, PROTOCOL_VERSION,
};
pub use shared::{
    shared_slot_header_alignment, SharedRegionHeader, SharedRegionLayout, SharedSlotHeader,
    SHARED_ACTIVATION_CLAIMED, SHARED_ACTIVATION_PENDING, SHARED_ACTIVATION_READY,
    SHARED_ALIGNMENT, SHARED_CLIENT_IDLE, SHARED_CLIENT_RUNNING, SHARED_CLIENT_STARTING,
    SHARED_MAGIC, SHARED_SLOT_COUNT, SHARED_SLOT_FREE, SHARED_SLOT_READING, SHARED_SLOT_READY,
    SHARED_SLOT_WRITING, SHARED_VERSION,
};
