//! Frames, requests and responses.
//!
//! A frame is a twelve-byte header (magic, version, code, payload length) followed by the payload.
//! Reading is specified against writing: a frame is accepted exactly when it is the frame of some
//! message, and then yields that message.
use vstd::prelude::*;
use vstd::utf8::*;
use crate::protocol::messages::{
    ErrorCode, IoErrorKind, PortDirection, ProtocolError, Request, RequestModel, Response,
    ResponseModel, SharedRegionInfo, MAX_FRAME_PAYLOAD, PROTOCOL_MAGIC, PROTOCOL_VERSION,
    STATS_WORDS, TARGET_MET_WORD,
};
use crate::protocol::payload::{
    decode_info, decode_shared_info, decode_stats, encode_info, encode_shared_info, encode_stats,
    SHARED_INFO_BYTES,
};
use crate::protocol::wire::{
    put_bytes, put_string, put_u16, put_u32, put_u64, put_u8, Decoder,
};

verus! {

/// Length of a frame header.
pub const FRAME_HEADER_BYTES: usize = 12;

/// The frame that carries `payload` under `code`.
pub open spec fn frame_bytes(code: u16, payload: Seq<u8>) -> Seq<u8> {
    header_bytes(code, payload.len()) + payload
}

/// The header that announces `length` payload bytes under `code`.
pub open spec fn header_bytes(code: u16, length: nat) -> Seq<u8> {
    PROTOCOL_MAGIC@ + crate::protocol::wire::le_bytes(PROTOCOL_VERSION as nat, 2)
        + crate::protocol::wire::le_bytes(code as nat, 2) + crate::protocol::wire::le_bytes(
        length,
        4,
    )
}

/// The version that a header claims.
pub open spec fn header_version(header: Seq<u8>) -> u16 {
    crate::protocol::wire::le_value(header.subrange(4, 6)) as u16
}

/// The code that a header carries.
pub open spec fn header_code(header: Seq<u8>) -> u16 {
    crate::protocol::wire::le_value(header.subrange(6, 8)) as u16
}

/// The payload length that a header announces.
pub open spec fn header_length(header: Seq<u8>) -> nat {
    crate::protocol::wire::le_value(header.subrange(8, 12))
}

/// Why a header is not accepted, if it is not.
pub open spec fn header_error(header: Seq<u8>) -> Option<ProtocolError> {
    if header.take(4) != PROTOCOL_MAGIC@ {
        Some(ProtocolError::InvalidMagic)
    } else if header_version(header) != PROTOCOL_VERSION {
        Some(ProtocolError::UnsupportedVersion(header_version(header)))
    } else if header_length(header) > MAX_FRAME_PAYLOAD {
        Some(ProtocolError::FrameTooLarge(header_length(header) as usize))
    } else {
        None
    }
}

/// Why a frame is not accepted as a frame, if it is not.
pub open spec fn frame_error(frame: Seq<u8>) -> Option<ProtocolError> {
    if frame.len() < FRAME_HEADER_BYTES {
        Some(ProtocolError::MalformedPayload)
    } else if header_error(frame) is Some {
        header_error(frame)
    } else if frame.len() != FRAME_HEADER_BYTES + header_length(frame) {
        Some(ProtocolError::MalformedPayload)
    } else {
        None
    }
}

/// The payload of an accepted frame.
pub open spec fn frame_payload(frame: Seq<u8>) -> Seq<u8> {
    frame.skip(FRAME_HEADER_BYTES as int)
}

/// The error that framing a payload of `length` bytes gives, if any.
pub open spec fn size_error(length: nat) -> Option<ProtocolError> {
    if length > MAX_FRAME_PAYLOAD {
        Some(ProtocolError::FrameTooLarge(length as usize))
    } else {
        None
    }
}

pub open spec fn request_code(request: RequestModel) -> u16 {
    match request {
        RequestModel::Hello { .. } => 1,
        RequestModel::GetInfo => 2,
        RequestModel::OpenPro => 3,
        RequestModel::OpenShared { .. } => 4,
        RequestModel::Start { .. } => 5,
        RequestModel::Stop { .. } => 6,
        RequestModel::Close { .. } => 7,
        RequestModel::GetStats => 8,
    }
}

pub open spec fn request_payload(request: RequestModel) -> Seq<u8> {
    match request {
        RequestModel::Hello { version } => crate::protocol::wire::le_bytes(version as nat, 2),
        RequestModel::OpenShared { port_id } => crate::protocol::wire::string_bytes(port_id),
        RequestModel::Start { session_id } => crate::protocol::wire::le_bytes(
            session_id as nat,
            8,
        ),
        RequestModel::Stop { session_id } => crate::protocol::wire::le_bytes(session_id as nat, 8),
        RequestModel::Close { session_id } => crate::protocol::wire::le_bytes(
            session_id as nat,
            8,
        ),
        _ => Seq::empty(),
    }
}

/// The error that writing the payload of `request` gives, if any.
pub open spec fn request_payload_error(request: RequestModel) -> Option<ProtocolError> {
    match request {
        RequestModel::OpenShared { port_id } => crate::protocol::payload::string_error(port_id),
        _ => None,
    }
}

/// Why `request` cannot be written, if it cannot.
pub open spec fn request_error(request: RequestModel) -> Option<ProtocolError> {
    crate::protocol::payload::first_error(
        request_payload_error(request),
        size_error(request_payload(request).len()),
    )
}

/// The frame of a request.
pub open spec fn request_frame(request: RequestModel) -> Seq<u8> {
    frame_bytes(request_code(request), request_payload(request))
}

/// `outcome` is what reading `frame` as a request gives: the request whose frame it is, or the
/// reason why it is the frame of none.
pub open spec fn request_decoding(
    frame: Seq<u8>,
    outcome: Result<RequestModel, ProtocolError>,
) -> bool {
    match outcome {
        Ok(request) => request_error(request) is None && frame == request_frame(request),
        Err(e) => {
            &&& e == match frame_error(frame) {
                Some(frame_failure) => frame_failure,
                None => if 1 <= header_code(frame) <= 8 {
                    ProtocolError::MalformedPayload
                } else {
                    ProtocolError::UnknownRequest(header_code(frame))
                },
            }
            &&& forall|request: RequestModel|
                request_error(request) is None ==> frame != #[trigger] request_frame(request)
        },
    }
}

pub open spec fn response_code(response: ResponseModel) -> u16 {
    match response {
        ResponseModel::Hello { .. } => 1,
        ResponseModel::Info(_) => 2,
        ResponseModel::OpenPro { .. } => 3,
        ResponseModel::Ack => 4,
        ResponseModel::Busy => 5,
        ResponseModel::Unsupported => 6,
        ResponseModel::Stats(_) => 7,
        ResponseModel::Error { .. } => 8,
        ResponseModel::OpenShared { .. } => 9,
    }
}

pub open spec fn response_payload(response: ResponseModel) -> Seq<u8> {
    match response {
        ResponseModel::Hello { version, features } => crate::protocol::wire::le_bytes(
            version as nat,
            2,
        ) + crate::protocol::wire::le_bytes(features as nat, 4),
        ResponseModel::Info(info) => crate::protocol::payload::info_bytes(info),
        ResponseModel::OpenPro { session_id, shared } => crate::protocol::wire::le_bytes(
            session_id as nat,
            8,
        ) + crate::protocol::payload::shared_info_bytes(shared),
        ResponseModel::OpenShared { session_id, direction, shared } =>
            crate::protocol::wire::le_bytes(session_id as nat, 8)
                + crate::protocol::wire::le_bytes(direction.value() as nat, 1)
                + crate::protocol::payload::shared_info_bytes(shared),
        ResponseModel::Stats(stats) => crate::protocol::payload::stats_bytes(stats),
        ResponseModel::Error { code, message } => crate::protocol::wire::le_bytes(
            code.value() as nat,
            2,
        ) + crate::protocol::wire::string_bytes(message),
        _ => Seq::empty(),
    }
}

/// The error that writing the payload of `response` gives, if any.
pub open spec fn response_payload_error(response: ResponseModel) -> Option<ProtocolError> {
    match response {
        ResponseModel::Info(info) => crate::protocol::payload::info_error(info),
        ResponseModel::Stats(stats) => crate::protocol::payload::stats_error(stats),
        ResponseModel::Error { message, .. } => crate::protocol::payload::string_error(message),
        _ => None,
    }
}

/// Why `response` cannot be written, if it cannot.
pub open spec fn response_error(response: ResponseModel) -> Option<ProtocolError> {
    crate::protocol::payload::first_error(
        response_payload_error(response),
        size_error(response_payload(response).len()),
    )
}

/// The frame of a response.
pub open spec fn response_frame(response: ResponseModel) -> Seq<u8> {
    frame_bytes(response_code(response), response_payload(response))
}

/// A model that some response has.
pub open spec fn response_shaped(response: ResponseModel) -> bool {
    match response {
        ResponseModel::Info(info) => crate::protocol::payload::info_shaped(info),
        ResponseModel::Stats(stats) => crate::protocol::payload::stats_shaped(stats),
        _ => true,
    }
}

/// `payload` says what `response` says.
pub open spec fn response_encoded_by(response: ResponseModel, payload: Seq<u8>) -> bool {
    match response {
        ResponseModel::Stats(stats) => crate::protocol::payload::stats_encoded_by(stats, payload),
        _ => payload == response_payload(response),
    }
}

/// `frame` is a frame that says what `response` says.
pub open spec fn response_framed_by(response: ResponseModel, frame: Seq<u8>) -> bool {
    &&& frame_error(frame) is None
    &&& header_code(frame) == response_code(response)
    &&& response_encoded_by(response, frame_payload(frame))
}

/// Why a payload is not that of a response, once it is known that it is not.
pub open spec fn response_payload_failure(code: u16, payload: Seq<u8>) -> ProtocolError {
    if !(1 <= code <= 9) {
        ProtocolError::UnknownResponse(code)
    } else if code == 9 && payload.len() >= 9 && !(1 <= payload[8] <= 2) {
        ProtocolError::UnknownDirection(payload[8])
    } else if code == 8 && payload.len() >= 2 && !(1 <= crate::protocol::wire::le_value(
        payload.take(2),
    ) <= 4) {
        ProtocolError::UnknownError(crate::protocol::wire::le_value(payload.take(2)) as u16)
    } else {
        ProtocolError::MalformedPayload
    }
}

/// `outcome` is what reading `frame` as a response gives: the response that it says, or the reason
/// why it says none.
pub open spec fn response_decoding(
    frame: Seq<u8>,
    outcome: Result<ResponseModel, ProtocolError>,
) -> bool {
    match outcome {
        Ok(response) => {
            &&& response_shaped(response)
            &&& response_payload_error(response) is None
            &&& response_framed_by(response, frame)
        },
        Err(e) => {
            &&& e == match frame_error(frame) {
                Some(frame_failure) => frame_failure,
                None => response_payload_failure(header_code(frame), frame_payload(frame)),
            }
            &&& forall|response: ResponseModel|
                response_shaped(response) && response_payload_error(response) is None
                    ==> !#[trigger] response_framed_by(response, frame)
        },
    }
}

/// What reading one frame from a stream gives, and what is left of the stream.
pub open spec fn frame_read(stream: Seq<u8>) -> (Result<Seq<u8>, ProtocolError>, Seq<u8>) {
    if stream.len() < FRAME_HEADER_BYTES {
        (Err(ProtocolError::Io(IoErrorKind::UnexpectedEof)), Seq::empty())
    } else {
        match header_error(stream) {
            Some(e) => (Err(e), stream.skip(FRAME_HEADER_BYTES as int)),
            None => {
                let end = FRAME_HEADER_BYTES + header_length(stream);
                if stream.len() < end {
                    (Err(ProtocolError::Io(IoErrorKind::UnexpectedEof)), Seq::empty())
                } else {
                    (Ok(stream.take(end)), stream.skip(end))
                }
            },
        }
    }
}

/// The model of a request that was read.
pub open spec fn request_outcome(result: Result<Request, ProtocolError>) -> Result<
    RequestModel,
    ProtocolError,
> {
    match result {
        Ok(request) => Ok(request@),
        Err(e) => Err(e),
    }
}

/// The model of a response that was read.
pub open spec fn response_outcome(result: Result<Response, ProtocolError>) -> Result<
    ResponseModel,
    ProtocolError,
> {
    match result {
        Ok(response) => Ok(response@),
        Err(e) => Err(e),
    }
}

proof fn lemma_header_parts(code: u16, length: nat)
    requires
        length <= u32::MAX,
    ensures
        header_bytes(code, length).len() == FRAME_HEADER_BYTES,
        header_bytes(code, length).take(4) == PROTOCOL_MAGIC@,
        header_version(header_bytes(code, length)) == PROTOCOL_VERSION,
        header_code(header_bytes(code, length)) == code,
        header_length(header_bytes(code, length)) == length,
{
    let header = header_bytes(code, length);
    let version = crate::protocol::wire::le_bytes(PROTOCOL_VERSION as nat, 2);
    let coded = crate::protocol::wire::le_bytes(code as nat, 2);
    let sized = crate::protocol::wire::le_bytes(length, 4);
    crate::protocol::wire::lemma_byte_spans();
    crate::protocol::wire::lemma_le_len(PROTOCOL_VERSION as nat, 2);
    crate::protocol::wire::lemma_le_len(code as nat, 2);
    crate::protocol::wire::lemma_le_len(length, 4);
    crate::protocol::wire::lemma_le_round_trip(PROTOCOL_VERSION as nat, 2);
    crate::protocol::wire::lemma_le_round_trip(code as nat, 2);
    crate::protocol::wire::lemma_le_round_trip(length, 4);
    assert(header.take(4) =~= PROTOCOL_MAGIC@);
    assert(header.subrange(4, 6) =~= version);
    assert(header.subrange(6, 8) =~= coded);
    assert(header.subrange(8, 12) =~= sized);
}

/// The header parts depend on the first twelve bytes alone.
proof fn lemma_header_is_prefix(stream: Seq<u8>, header: Seq<u8>)
    requires
        stream.len() >= FRAME_HEADER_BYTES,
        header.len() >= FRAME_HEADER_BYTES,
        stream.take(FRAME_HEADER_BYTES as int) == header.take(FRAME_HEADER_BYTES as int),
    ensures
        header_error(stream) == header_error(header),
        header_code(stream) == header_code(header),
        header_length(stream) == header_length(header),
{
    let a = stream.take(FRAME_HEADER_BYTES as int);
    let b = header.take(FRAME_HEADER_BYTES as int);
    assert(stream.take(4) =~= a.take(4));
    assert(header.take(4) =~= b.take(4));
    assert(stream.subrange(4, 6) =~= a.subrange(4, 6));
    assert(header.subrange(4, 6) =~= b.subrange(4, 6));
    assert(stream.subrange(6, 8) =~= a.subrange(6, 8));
    assert(header.subrange(6, 8) =~= b.subrange(6, 8));
    assert(stream.subrange(8, 12) =~= a.subrange(8, 12));
    assert(header.subrange(8, 12) =~= b.subrange(8, 12));
}

/// A payload of acceptable size is recovered from its frame together with its code.
pub proof fn frame_is_accepted(code: u16, payload: Seq<u8>)
    requires
        payload.len() <= MAX_FRAME_PAYLOAD,
    ensures
        frame_error(frame_bytes(code, payload)) is None,
        header_code(frame_bytes(code, payload)) == code,
        frame_payload(frame_bytes(code, payload)) == payload,
{
    let frame = frame_bytes(code, payload);
    let header = header_bytes(code, payload.len());
    lemma_header_parts(code, payload.len());
    assert(frame.take(FRAME_HEADER_BYTES as int) =~= header.take(FRAME_HEADER_BYTES as int));
    lemma_header_is_prefix(frame, header);
    assert(frame_payload(frame) =~= payload);
}

/// An accepted frame is the frame of its code and its payload, and no other bytes are accepted.
pub proof fn accepted_frame_is_canonical(frame: Seq<u8>)
    requires
        frame_error(frame) is None,
    ensures
        frame == frame_bytes(header_code(frame), frame_payload(frame)),
        frame_payload(frame).len() <= MAX_FRAME_PAYLOAD,
{
    let payload = frame_payload(frame);
    crate::protocol::wire::lemma_byte_spans();
    crate::protocol::wire::lemma_le_covers(frame.subrange(4, 6));
    crate::protocol::wire::lemma_le_covers(frame.subrange(6, 8));
    crate::protocol::wire::lemma_le_covers(frame.subrange(8, 12));
    assert(header_bytes(header_code(frame), payload.len()) =~= frame.take(4) + frame.subrange(4, 6)
        + frame.subrange(6, 8) + frame.subrange(8, 12));
    assert(frame =~= frame_bytes(header_code(frame), payload));
}

/// The sixteen bits at `at`.
fn u16_at(bytes: &[u8], at: usize) -> (value: u16)
    requires
        at + 2 <= bytes@.len(),
    ensures
        value == crate::protocol::wire::le_value(bytes@.subrange(at as int, at + 2)),
{
    let ghost part = bytes@.subrange(at as int, at + 2);
    proof {
        reveal_with_fuel(crate::protocol::wire::le_value, 3);
    }
    bytes[at] as u16 + 256 * (bytes[at + 1] as u16)
}

/// The thirty-two bits at `at`.
fn u32_at(bytes: &[u8], at: usize) -> (value: u32)
    requires
        at + 4 <= bytes@.len(),
    ensures
        value == crate::protocol::wire::le_value(bytes@.subrange(at as int, at + 4)),
{
    let ghost part = bytes@.subrange(at as int, at + 4);
    proof {
        reveal_with_fuel(crate::protocol::wire::le_value, 5);
    }
    bytes[at] as u32 + 256 * (bytes[at + 1] as u32 + 256 * (bytes[at + 2] as u32 + 256 * (
    bytes[at + 3] as u32)))
}

/// Checks a frame header and gives the payload length that it announces.
pub fn payload_length(header: &[u8]) -> (result: Result<usize, ProtocolError>)
    requires
        header@.len() >= FRAME_HEADER_BYTES,
    ensures
        match result {
            Ok(length) => header_error(header@) is None && length == header_length(header@),
            Err(e) => header_error(header@) == Some(e),
        },
{
    let magic: [u8; 4] = PROTOCOL_MAGIC;
    if header[0] != magic[0] || header[1] != magic[1] || header[2] != magic[2] || header[3]
        != magic[3] {
        assert(header@.take(4)[0] != magic@[0] || header@.take(4)[1] != magic@[1]
            || header@.take(4)[2] != magic@[2] || header@.take(4)[3] != magic@[3]);
        return Err(ProtocolError::InvalidMagic);
    }
    assert(header@.take(4) =~= magic@);
    let version: u16 = u16_at(header, 4);
    if version != PROTOCOL_VERSION {
        return Err(ProtocolError::UnsupportedVersion(version));
    }
    let length: usize = u32_at(header, 8) as usize;
    if length > MAX_FRAME_PAYLOAD {
        return Err(ProtocolError::FrameTooLarge(length));
    }
    Ok(length)
}

fn encode_frame(code: u16, payload: &[u8]) -> (result: Result<Vec<u8>, ProtocolError>)
    ensures
        match result {
            Ok(frame) => size_error(payload@.len()) is None && frame@ == frame_bytes(
                code,
                payload@,
            ),
            Err(e) => size_error(payload@.len()) == Some(e),
        },
{
    let length: usize = payload.len();
    if length > MAX_FRAME_PAYLOAD {
        return Err(ProtocolError::FrameTooLarge(length));
    }
    let mut frame: Vec<u8> = Vec::new();
    let magic: [u8; 4] = PROTOCOL_MAGIC;
    put_bytes(&mut frame, &magic);
    put_u16(&mut frame, PROTOCOL_VERSION);
    put_u16(&mut frame, code);
    put_u32(&mut frame, length as u32);
    put_bytes(&mut frame, payload);
    assert(frame@ =~= frame_bytes(code, payload@));
    Ok(frame)
}

fn decode_frame<'a>(frame: &'a [u8]) -> (result: Result<(u16, &'a [u8]), ProtocolError>)
    ensures
        match result {
            Ok((code, payload)) => {
                &&& frame_error(frame@) is None
                &&& code == header_code(frame@)
                &&& payload@ == frame_payload(frame@)
            },
            Err(e) => frame_error(frame@) == Some(e),
        },
{
    if frame.len() < FRAME_HEADER_BYTES {
        return Err(ProtocolError::MalformedPayload);
    }
    let length: usize = match payload_length(frame) {
        Ok(length) => length,
        Err(e) => {
            return Err(e);
        },
    };
    let code: u16 = u16_at(frame, 6);
    if frame.len() != FRAME_HEADER_BYTES + length {
        return Err(ProtocolError::MalformedPayload);
    }
    Ok((code, vstd::slice::slice_subrange(frame, FRAME_HEADER_BYTES, frame.len())))
}

fn encode_request_payload(request: &Request) -> (result: Result<(u16, Vec<u8>), ProtocolError>)
    ensures
        match result {
            Ok((code, payload)) => {
                &&& request_payload_error(request@) is None
                &&& code == request_code(request@)
                &&& payload@ == request_payload(request@)
            },
            Err(e) => request_payload_error(request@) == Some(e),
        },
{
    let mut payload: Vec<u8> = Vec::new();
    let code: u16 = match request {
        Request::Hello { version } => {
            put_u16(&mut payload, *version);
            1
        },
        Request::GetInfo => 2,
        Request::OpenPro => 3,
        Request::OpenShared { port_id } => {
            if let Err(e) = put_string(&mut payload, port_id.as_str()) {
                return Err(e);
            }
            4
        },
        Request::Start { session_id } => {
            put_u64(&mut payload, *session_id);
            5
        },
        Request::Stop { session_id } => {
            put_u64(&mut payload, *session_id);
            6
        },
        Request::Close { session_id } => {
            put_u64(&mut payload, *session_id);
            7
        },
        Request::GetStats => 8,
    };
    assert(payload@ =~= request_payload(request@));
    Ok((code, payload))
}

/// Writes `request` as a frame.
pub fn encode_request(request: &Request) -> (result: Result<Vec<u8>, ProtocolError>)
    ensures
        match result {
            Ok(frame) => request_error(request@) is None && frame@ == request_frame(request@),
            Err(e) => request_error(request@) == Some(e),
        },
{
    match encode_request_payload(request) {
        Ok((code, payload)) => encode_frame(code, payload.as_slice()),
        Err(e) => Err(e),
    }
}

/// `payload` is the payload of a request with `code`, or of none.
spec fn request_payload_decoding(
    code: u16,
    payload: Seq<u8>,
    outcome: Result<RequestModel, ProtocolError>,
) -> bool {
    match outcome {
        Ok(request) => {
            &&& request_payload_error(request) is None
            &&& request_code(request) == code
            &&& payload == request_payload(request)
        },
        Err(e) => {
            &&& e == if 1 <= code <= 8 {
                ProtocolError::MalformedPayload
            } else {
                ProtocolError::UnknownRequest(code)
            }
            &&& forall|request: RequestModel|
                request_payload_error(request) is None && request_code(request) == code ==> payload
                    != #[trigger] request_payload(request)
        },
    }
}

proof fn lemma_nothing_follows(bytes: Seq<u8>, rest: Seq<u8>)
    requires
        rest.len() == 0,
    ensures
        bytes + rest == bytes,
{
    assert(bytes + rest =~= bytes);
}

fn decode_request_payload(code: u16, payload: &[u8]) -> (result: Result<Request, ProtocolError>)
    ensures
        request_payload_decoding(code, payload@, request_outcome(result)),
{
    proof {
        crate::protocol::wire::lemma_byte_spans();
        assert forall|value: nat, width: nat| (#[trigger] crate::protocol::wire::le_bytes(
            value,
            width,
        )).len() == width by {
            crate::protocol::wire::lemma_le_len(value, width);
        }
        assert forall|request: RequestModel| (#[trigger] request_payload(request)) == request_payload(
            request,
        ) + Seq::<u8>::empty() by {
            lemma_nothing_follows(request_payload(request), Seq::<u8>::empty());
        }
    }
    let mut decoder = Decoder::new(payload);
    let request = match code {
        1 => match decoder.u16() {
            Ok(version) => Request::Hello { version },
            Err(e) => {
                return Err(e);
            },
        },
        2 => Request::GetInfo,
        3 => Request::OpenPro,
        4 => match decoder.string() {
            Ok(port_id) => Request::OpenShared { port_id },
            Err(e) => {
                return Err(e);
            },
        },
        5 => match decoder.u64() {
            Ok(session_id) => Request::Start { session_id },
            Err(e) => {
                return Err(e);
            },
        },
        6 => match decoder.u64() {
            Ok(session_id) => Request::Stop { session_id },
            Err(e) => {
                return Err(e);
            },
        },
        7 => match decoder.u64() {
            Ok(session_id) => Request::Close { session_id },
            Err(e) => {
                return Err(e);
            },
        },
        8 => Request::GetStats,
        _ => {
            return Err(ProtocolError::UnknownRequest(code));
        },
    };
    let ghost rest = decoder.remaining();
    assert(payload@ =~= request_payload(request@) + rest);
    match decoder.finish() {
        Ok(_) => {
            proof {
                lemma_nothing_follows(request_payload(request@), rest);
            }
            Ok(request)
        },
        Err(e) => {
            assert forall|other: RequestModel|
                request_payload_error(other) is None && request_code(other)
                    == code implies payload@ != #[trigger] request_payload(other) by {
                if payload@ == request_payload(other) {
                    lemma_request_payload_prefix(
                        request@,
                        rest,
                        other,
                        Seq::<u8>::empty(),
                    );
                }
            }
            Err(e)
        },
    }
}

/// Payloads of one request code are told apart, and so is what follows them.
proof fn lemma_request_payload_prefix(
    a: RequestModel,
    x: Seq<u8>,
    b: RequestModel,
    y: Seq<u8>,
)
    requires
        request_code(a) == request_code(b),
        request_payload_error(a) is None,
        request_payload_error(b) is None,
        request_payload(a) + x == request_payload(b) + y,
    ensures
        a == b,
        x == y,
{
    crate::protocol::wire::lemma_byte_spans();
    match (a, b) {
        (RequestModel::Hello { version: v }, RequestModel::Hello { version: w }) => {
            crate::protocol::wire::lemma_le_prefix(v as nat, x, w as nat, y, 2);
        },
        (
            RequestModel::OpenShared { port_id: v },
            RequestModel::OpenShared { port_id: w },
        ) => {
            crate::protocol::wire::lemma_string_prefix(v, x, w, y);
        },
        (RequestModel::Start { session_id: v }, RequestModel::Start { session_id: w }) => {
            crate::protocol::wire::lemma_le_prefix(v as nat, x, w as nat, y, 8);
        },
        (RequestModel::Stop { session_id: v }, RequestModel::Stop { session_id: w }) => {
            crate::protocol::wire::lemma_le_prefix(v as nat, x, w as nat, y, 8);
        },
        (RequestModel::Close { session_id: v }, RequestModel::Close { session_id: w }) => {
            crate::protocol::wire::lemma_le_prefix(v as nat, x, w as nat, y, 8);
        },
        _ => {
            crate::protocol::wire::lemma_cut(request_payload(a), x, request_payload(b), y);
        },
    }
}

/// Reads a frame as a request.
pub fn decode_request(frame: &[u8]) -> (result: Result<Request, ProtocolError>)
    ensures
        request_decoding(frame@, request_outcome(result)),
{
    proof {
        assert forall|request: RequestModel| request_error(request) is None implies frame_error(
            #[trigger] request_frame(request),
        ) is None && header_code(request_frame(request)) == request_code(request) && frame_payload(
            request_frame(request),
        ) == request_payload(request) by {
            frame_is_accepted(request_code(request), request_payload(request));
        }
    }
    match decode_frame(frame) {
        Ok((code, payload)) => {
            proof {
                accepted_frame_is_canonical(frame@);
            }
            decode_request_payload(code, payload)
        },
        Err(e) => Err(e),
    }
}

/// Appends the frame of `request`; on failure nothing is appended.
pub fn write_request(writer: &mut Vec<u8>, request: &Request) -> (result: Result<
    (),
    ProtocolError,
>)
    ensures
        match result {
            Ok(_) => request_error(request@) is None && final(writer)@ == old(writer)@
                + request_frame(request@),
            Err(e) => request_error(request@) == Some(e) && final(writer)@ == old(writer)@,
        },
{
    match encode_request(request) {
        Ok(frame) => {
            put_bytes(writer, frame.as_slice());
            Ok(())
        },
        Err(e) => Err(e),
    }
}

/// Reading the frame of a request gives the request back.
pub proof fn request_round_trip(
    request: RequestModel,
    outcome: Result<RequestModel, ProtocolError>,
)
    requires
        request_error(request) is None,
        request_decoding(request_frame(request), outcome),
    ensures
        outcome == Ok::<RequestModel, ProtocolError>(request),
{
    if let Ok(other) = outcome {
        frame_is_accepted(request_code(request), request_payload(request));
        frame_is_accepted(request_code(other), request_payload(other));
        lemma_request_payload_prefix(request, Seq::empty(), other, Seq::empty());
    }
}

fn encode_response_payload(response: &Response) -> (result: Result<(u16, Vec<u8>), ProtocolError>)
    ensures
        match result {
            Ok((code, payload)) => {
                &&& response_payload_error(response@) is None
                &&& code == response_code(response@)
                &&& payload@ == response_payload(response@)
            },
            Err(e) => response_payload_error(response@) == Some(e),
        },
{
    let mut payload: Vec<u8> = Vec::new();
    let code: u16 = match response {
        Response::Hello { version, features } => {
            put_u16(&mut payload, *version);
            put_u32(&mut payload, *features);
            1
        },
        Response::Info(info) => {
            if let Err(e) = encode_info(&mut payload, info) {
                return Err(e);
            }
            2
        },
        Response::OpenPro { session_id, shared } => {
            put_u64(&mut payload, *session_id);
            encode_shared_info(&mut payload, shared);
            3
        },
        Response::OpenShared { session_id, direction, shared } => {
            put_u64(&mut payload, *session_id);
            put_u8(&mut payload, direction.code());
            encode_shared_info(&mut payload, shared);
            9
        },
        Response::Ack => 4,
        Response::Busy => 5,
        Response::Unsupported => 6,
        Response::Stats(stats) => {
            if let Err(e) = encode_stats(&mut payload, stats) {
                return Err(e);
            }
            7
        },
        Response::Error { code, message } => {
            put_u16(&mut payload, code.code());
            if let Err(e) = put_string(&mut payload, message.as_str()) {
                return Err(e);
            }
            8
        },
    };
    assert(payload@ =~= response_payload(response@));
    Ok((code, payload))
}

/// Writes `response` as a frame.
pub fn encode_response(response: &Response) -> (result: Result<Vec<u8>, ProtocolError>)
    ensures
        match result {
            Ok(frame) => response_error(response@) is None && frame@ == response_frame(response@),
            Err(e) => response_error(response@) == Some(e),
        },
{
    match encode_response_payload(response) {
        Ok((code, payload)) => encode_frame(code, payload.as_slice()),
        Err(e) => Err(e),
    }
}

/// `payload` says a response with `code`, or none.
spec fn response_payload_decoding(
    code: u16,
    payload: Seq<u8>,
    outcome: Result<ResponseModel, ProtocolError>,
) -> bool {
    match outcome {
        Ok(response) => {
            &&& response_shaped(response)
            &&& response_payload_error(response) is None
            &&& response_code(response) == code
            &&& response_encoded_by(response, payload)
        },
        Err(e) => {
            &&& e == response_payload_failure(code, payload)
            &&& forall|response: ResponseModel|
                response_shaped(response) && response_payload_error(response) is None
                    && response_code(response) == code ==> !#[trigger] response_encoded_by(
                    response,
                    payload,
                )
        },
    }
}

fn decode_hello_response(payload: &[u8]) -> (result: Result<Response, ProtocolError>)
    ensures
        response_payload_decoding(1, payload@, response_outcome(result)),
{
    proof {
        assert forall|version: u16, features: u32|
            (#[trigger] response_payload(ResponseModel::Hello { version, features })).len()
                == 6 by {
            crate::protocol::wire::lemma_le_len(version as nat, 2);
            crate::protocol::wire::lemma_le_len(features as nat, 4);
        }
    }
    let mut decoder = Decoder::new(payload);
    let version: u16 = match decoder.u16() {
        Ok(version) => version,
        Err(e) => {
            return Err(e);
        },
    };
    proof {
        crate::protocol::wire::lemma_le_len(version as nat, 2);
    }
    let features: u32 = match decoder.u32() {
        Ok(features) => features,
        Err(e) => {
            return Err(e);
        },
    };
    proof {
        crate::protocol::wire::lemma_le_len(features as nat, 4);
    }
    match decoder.finish() {
        Ok(_) => {
            assert(payload@ =~= response_payload(ResponseModel::Hello { version, features }));
            Ok(Response::Hello { version, features })
        },
        Err(e) => Err(e),
    }
}

fn decode_info_response(payload: &[u8]) -> (result: Result<Response, ProtocolError>)
    ensures
        response_payload_decoding(2, payload@, response_outcome(result)),
{
    let mut decoder = Decoder::new(payload);
    let info = match decode_info(&mut decoder) {
        Ok(info) => info,
        Err(e) => {
            assert forall|response: ResponseModel|
                response_shaped(response) && response_payload_error(response) is None
                    && response_code(response) == 2 implies !#[trigger] response_encoded_by(
                response,
                payload@,
            ) by {
                let other = response->Info_0;
                lemma_nothing_follows(crate::protocol::payload::info_bytes(other), Seq::empty());
            }
            return Err(e);
        },
    };
    let ghost rest = decoder.remaining();
    match decoder.finish() {
        Ok(_) => {
            proof {
                lemma_nothing_follows(crate::protocol::payload::info_bytes(info@), rest);
            }
            Ok(Response::Info(info))
        },
        Err(e) => {
            assert forall|response: ResponseModel|
                response_shaped(response) && response_payload_error(response) is None
                    && response_code(response) == 2 implies !#[trigger] response_encoded_by(
                response,
                payload@,
            ) by {
                let other = response->Info_0;
                if response_encoded_by(response, payload@) {
                    lemma_nothing_follows(
                        crate::protocol::payload::info_bytes(other),
                        Seq::empty(),
                    );
                    crate::protocol::payload::lemma_info_prefix(info@, rest, other, Seq::empty());
                }
            }
            Err(e)
        },
    }
}

fn decode_open_pro_response(payload: &[u8]) -> (result: Result<Response, ProtocolError>)
    ensures
        response_payload_decoding(3, payload@, response_outcome(result)),
{
    proof {
        assert forall|session_id: u64, shared: SharedRegionInfo|
            (#[trigger] response_payload(ResponseModel::OpenPro { session_id, shared })).len() == 8
                + SHARED_INFO_BYTES by {
            crate::protocol::wire::lemma_le_len(session_id as nat, 8);
            crate::protocol::payload::lemma_shared_info_len(shared);
        }
    }
    let mut decoder = Decoder::new(payload);
    let session_id: u64 = match decoder.u64() {
        Ok(value) => value,
        Err(e) => {
            return Err(e);
        },
    };
    proof {
        crate::protocol::wire::lemma_le_len(session_id as nat, 8);
    }
    let shared = match decode_shared_info(&mut decoder) {
        Ok(shared) => shared,
        Err(e) => {
            return Err(e);
        },
    };
    proof {
        crate::protocol::payload::lemma_shared_info_len(shared);
    }
    match decoder.finish() {
        Ok(_) => {
            assert(payload@ =~= response_payload(ResponseModel::OpenPro { session_id, shared }));
            Ok(Response::OpenPro { session_id, shared })
        },
        Err(e) => Err(e),
    }
}

fn decode_open_shared_response(payload: &[u8]) -> (result: Result<Response, ProtocolError>)
    ensures
        response_payload_decoding(9, payload@, response_outcome(result)),
{
    proof {
        reveal_with_fuel(crate::protocol::wire::le_bytes, 2);
        assert forall|session_id: u64, direction: PortDirection, shared: SharedRegionInfo| ({
            let bytes = #[trigger] response_payload(
                ResponseModel::OpenShared { session_id, direction, shared },
            );
            bytes.len() == 9 + SHARED_INFO_BYTES && bytes[8] == direction.value()
        }) by {
            crate::protocol::wire::lemma_le_len(session_id as nat, 8);
            crate::protocol::wire::lemma_le_len(direction.value() as nat, 1);
            crate::protocol::payload::lemma_shared_info_len(shared);
        }
    }
    let mut decoder = Decoder::new(payload);
    let session_id: u64 = match decoder.u64() {
        Ok(value) => value,
        Err(e) => {
            return Err(e);
        },
    };
    proof {
        crate::protocol::wire::lemma_le_len(session_id as nat, 8);
    }
    let byte: u8 = match decoder.u8() {
        Ok(value) => value,
        Err(e) => {
            return Err(e);
        },
    };
    proof {
        crate::protocol::wire::lemma_le_len(byte as nat, 1);
        assert(payload@[8] == byte);
    }
    let direction = match PortDirection::from_code(byte) {
        Ok(direction) => direction,
        Err(e) => {
            return Err(e);
        },
    };
    let shared = match decode_shared_info(&mut decoder) {
        Ok(shared) => shared,
        Err(e) => {
            return Err(e);
        },
    };
    proof {
        crate::protocol::payload::lemma_shared_info_len(shared);
    }
    match decoder.finish() {
        Ok(_) => {
            assert(payload@ =~= response_payload(
                ResponseModel::OpenShared { session_id, direction, shared },
            ));
            Ok(Response::OpenShared { session_id, direction, shared })
        },
        Err(e) => Err(e),
    }
}

fn decode_stats_response(payload: &[u8]) -> (result: Result<Response, ProtocolError>)
    ensures
        response_payload_decoding(7, payload@, response_outcome(result)),
{
    let mut decoder = Decoder::new(payload);
    let stats = match decode_stats(&mut decoder) {
        Ok(stats) => stats,
        Err(e) => {
            assert forall|response: ResponseModel|
                response_shaped(response) && response_payload_error(response) is None
                    && response_code(response) == 7 implies !#[trigger] response_encoded_by(
                response,
                payload@,
            ) by {
                let other = response->Stats_0;
                if response_encoded_by(response, payload@) {
                    let word = choose|word: u64|
                        (word != 0) == (other.words[TARGET_MET_WORD as int] != 0) && payload@
                            == #[trigger] crate::protocol::payload::stats_bytes(
                            crate::protocol::payload::with_flag_word(other, word),
                        );
                    lemma_nothing_follows(
                        crate::protocol::payload::stats_bytes(
                            crate::protocol::payload::with_flag_word(other, word),
                        ),
                        Seq::empty(),
                    );
                }
            }
            return Err(e);
        },
    };
    let ghost rest = decoder.remaining();
    let ghost word = choose|word: u64|
        (word != 0) == stats.linked_phase_target_met && payload@
            == #[trigger] crate::protocol::payload::stats_bytes(
            crate::protocol::payload::with_flag_word(stats@, word),
        ) + rest;
    let ghost flagged = crate::protocol::payload::with_flag_word(stats@, word);
    match decoder.finish() {
        Ok(_) => {
            proof {
                lemma_nothing_follows(crate::protocol::payload::stats_bytes(flagged), rest);
                assert(stats@.words[TARGET_MET_WORD as int]
                    == crate::protocol::messages::flag_word(stats.linked_phase_target_met));
                assert(crate::protocol::payload::stats_encoded_by(stats@, payload@));
            }
            Ok(Response::Stats(Box::new(stats)))
        },
        Err(e) => {
            assert forall|response: ResponseModel|
                response_shaped(response) && response_payload_error(response) is None
                    && response_code(response) == 7 implies !#[trigger] response_encoded_by(
                response,
                payload@,
            ) by {
                let other = response->Stats_0;
                if response_encoded_by(response, payload@) {
                    let other_word = choose|word: u64|
                        (word != 0) == (other.words[TARGET_MET_WORD as int] != 0) && payload@
                            == #[trigger] crate::protocol::payload::stats_bytes(
                            crate::protocol::payload::with_flag_word(other, word),
                        );
                    let other_flagged = crate::protocol::payload::with_flag_word(
                        other,
                        other_word,
                    );
                    lemma_nothing_follows(
                        crate::protocol::payload::stats_bytes(other_flagged),
                        Seq::empty(),
                    );
                    crate::protocol::payload::lemma_stats_prefix(
                        flagged,
                        rest,
                        other_flagged,
                        Seq::empty(),
                    );
                }
            }
            Err(e)
        },
    }
}

fn decode_error_response(payload: &[u8]) -> (result: Result<Response, ProtocolError>)
    ensures
        response_payload_decoding(8, payload@, response_outcome(result)),
{
    proof {
        crate::protocol::wire::lemma_byte_spans();
    }
    let mut decoder = Decoder::new(payload);
    let number: u16 = match decoder.u16() {
        Ok(value) => value,
        Err(e) => {
            assert forall|response: ResponseModel|
                response_code(response) == 8 implies !#[trigger] response_encoded_by(
                response,
                payload@,
            ) by {
                let code = response->code;
                crate::protocol::wire::lemma_le_len(code.value() as nat, 2);
            }
            return Err(e);
        },
    };
    let ghost at_message = decoder.remaining();
    proof {
        crate::protocol::wire::lemma_le_len(number as nat, 2);
        crate::protocol::wire::lemma_le_round_trip(number as nat, 2);
        assert(payload@.take(2) =~= crate::protocol::wire::le_bytes(number as nat, 2));
        assert forall|code: ErrorCode, message: Seq<char>, rest: Seq<u8>|
            payload@ == #[trigger] (response_payload(ResponseModel::Error { code, message })
                + rest) implies code.value() == number && at_message
            == crate::protocol::wire::string_bytes(message) + rest by {
            let tail = crate::protocol::wire::string_bytes(message) + rest;
            assert(response_payload(ResponseModel::Error { code, message }) + rest
                =~= crate::protocol::wire::le_bytes(code.value() as nat, 2) + tail);
            crate::protocol::wire::lemma_le_prefix(
                number as nat,
                at_message,
                code.value() as nat,
                tail,
                2,
            );
        }
        assert forall|response: ResponseModel| #[trigger]
            response_encoded_by(response, payload@) && response_code(response)
                == 8 implies payload@ == response_payload(response) + Seq::<u8>::empty() by {
            lemma_nothing_follows(response_payload(response), Seq::empty());
        }
    }
    let code = match ErrorCode::from_code(number) {
        Ok(code) => code,
        Err(e) => {
            return Err(e);
        },
    };
    let message = match decoder.string() {
        Ok(message) => message,
        Err(e) => {
            return Err(e);
        },
    };
    let ghost rest = decoder.remaining();
    match decoder.finish() {
        Ok(_) => {
            assert(payload@ =~= response_payload(
                ResponseModel::Error { code, message: message@ },
            ));
            Ok(Response::Error { code, message })
        },
        Err(e) => {
            assert forall|response: ResponseModel|
                response_shaped(response) && response_payload_error(response) is None
                    && response_code(response) == 8 implies !#[trigger] response_encoded_by(
                response,
                payload@,
            ) by {
                let other = response->message;
                if response_encoded_by(response, payload@) {
                    crate::protocol::wire::lemma_string_prefix(
                        message@,
                        rest,
                        other,
                        Seq::empty(),
                    );
                }
            }
            Err(e)
        },
    }
}

fn decode_response_payload(code: u16, payload: &[u8]) -> (result: Result<Response, ProtocolError>)
    ensures
        response_payload_decoding(code, payload@, response_outcome(result)),
{
    match code {
        1 => decode_hello_response(payload),
        2 => decode_info_response(payload),
        3 => decode_open_pro_response(payload),
        7 => decode_stats_response(payload),
        8 => decode_error_response(payload),
        9 => decode_open_shared_response(payload),
        4 | 5 | 6 => {
            if payload.len() != 0 {
                return Err(ProtocolError::MalformedPayload);
            }
            assert(payload@ =~= Seq::<u8>::empty());
            if code == 4 {
                Ok(Response::Ack)
            } else if code == 5 {
                Ok(Response::Busy)
            } else {
                Ok(Response::Unsupported)
            }
        },
        _ => Err(ProtocolError::UnknownResponse(code)),
    }
}

/// Reads a frame as a response.
pub fn decode_response(frame: &[u8]) -> (result: Result<Response, ProtocolError>)
    ensures
        response_decoding(frame@, response_outcome(result)),
{
    match decode_frame(frame) {
        Ok((code, payload)) => decode_response_payload(code, payload),
        Err(e) => Err(e),
    }
}

/// Appends the frame of `response`; on failure nothing is appended.
pub fn write_response(writer: &mut Vec<u8>, response: &Response) -> (result: Result<
    (),
    ProtocolError,
>)
    ensures
        match result {
            Ok(_) => response_error(response@) is None && final(writer)@ == old(writer)@
                + response_frame(response@),
            Err(e) => response_error(response@) == Some(e) && final(writer)@ == old(writer)@,
        },
{
    match encode_response(response) {
        Ok(frame) => {
            put_bytes(writer, frame.as_slice());
            Ok(())
        },
        Err(e) => Err(e),
    }
}

/// The response whose frame a response is written as says that response.
proof fn lemma_response_frame_says_it(response: ResponseModel)
    requires
        response_shaped(response),
        response_error(response) is None,
    ensures
        response_framed_by(response, response_frame(response)),
{
    frame_is_accepted(response_code(response), response_payload(response));
    if let ResponseModel::Stats(stats) = response {
        let word = stats.words[TARGET_MET_WORD as int];
        assert(crate::protocol::payload::with_flag_word(stats, word) =~= stats);
    }
}

/// A payload says at most one response of a given code.
proof fn lemma_payload_says_one_response(a: ResponseModel, b: ResponseModel, payload: Seq<u8>)
    requires
        response_code(a) == response_code(b),
        response_shaped(a),
        response_shaped(b),
        response_payload_error(a) is None,
        response_payload_error(b) is None,
        response_encoded_by(a, payload),
        response_encoded_by(b, payload),
    ensures
        a == b,
{
    crate::protocol::wire::lemma_byte_spans();
    let none = Seq::<u8>::empty();
    match (a, b) {
        (
            ResponseModel::Hello { version: v, features: f },
            ResponseModel::Hello { version: w, features: g },
        ) => {
            let tail = crate::protocol::wire::le_bytes(f as nat, 4);
            let other = crate::protocol::wire::le_bytes(g as nat, 4);
            crate::protocol::wire::lemma_le_prefix(v as nat, tail, w as nat, other, 2);
            lemma_nothing_follows(tail, none);
            lemma_nothing_follows(other, none);
            crate::protocol::wire::lemma_le_prefix(f as nat, none, g as nat, none, 4);
        },
        (ResponseModel::Info(x), ResponseModel::Info(y)) => {
            crate::protocol::payload::lemma_info_prefix(x, none, y, none);
        },
        (
            ResponseModel::OpenPro { session_id: v, shared: f },
            ResponseModel::OpenPro { session_id: w, shared: g },
        ) => {
            let tail = crate::protocol::payload::shared_info_bytes(f);
            let other = crate::protocol::payload::shared_info_bytes(g);
            crate::protocol::wire::lemma_le_prefix(v as nat, tail, w as nat, other, 8);
            crate::protocol::payload::lemma_shared_info_prefix(f, none, g, none);
        },
        (
            ResponseModel::OpenShared { session_id: v, direction: d, shared: f },
            ResponseModel::OpenShared { session_id: w, direction: e, shared: g },
        ) => {
            let tail = crate::protocol::payload::shared_info_bytes(f);
            let other = crate::protocol::payload::shared_info_bytes(g);
            let named = crate::protocol::wire::le_bytes(d.value() as nat, 1) + tail;
            let other_named = crate::protocol::wire::le_bytes(e.value() as nat, 1) + other;
            assert(response_payload(a) =~= crate::protocol::wire::le_bytes(v as nat, 8) + named);
            assert(response_payload(b) =~= crate::protocol::wire::le_bytes(w as nat, 8)
                + other_named);
            crate::protocol::wire::lemma_le_prefix(v as nat, named, w as nat, other_named, 8);
            crate::protocol::wire::lemma_le_prefix(
                d.value() as nat,
                tail,
                e.value() as nat,
                other,
                1,
            );
            crate::protocol::payload::lemma_shared_info_prefix(f, none, g, none);
        },
        (ResponseModel::Stats(x), ResponseModel::Stats(y)) => {
            let v = choose|word: u64|
                (word != 0) == (x.words[TARGET_MET_WORD as int] != 0) && payload
                    == #[trigger] crate::protocol::payload::stats_bytes(
                    crate::protocol::payload::with_flag_word(x, word),
                );
            let w = choose|word: u64|
                (word != 0) == (y.words[TARGET_MET_WORD as int] != 0) && payload
                    == #[trigger] crate::protocol::payload::stats_bytes(
                    crate::protocol::payload::with_flag_word(y, word),
                );
            let flagged = crate::protocol::payload::with_flag_word(x, v);
            let other = crate::protocol::payload::with_flag_word(y, w);
            crate::protocol::payload::lemma_stats_prefix(flagged, none, other, none);
            assert(flagged.words[TARGET_MET_WORD as int] == v);
            assert(other.words[TARGET_MET_WORD as int] == w);
            assert forall|i: int| 0 <= i < STATS_WORDS implies x.words[i] == y.words[i] by {
                assert(flagged.words[i] == other.words[i]);
            }
            assert(x.words =~= y.words);
        },
        (
            ResponseModel::Error { code: v, message: f },
            ResponseModel::Error { code: w, message: g },
        ) => {
            let tail = crate::protocol::wire::string_bytes(f);
            let other = crate::protocol::wire::string_bytes(g);
            crate::protocol::wire::lemma_le_prefix(
                v.value() as nat,
                tail,
                w.value() as nat,
                other,
                2,
            );
            crate::protocol::wire::lemma_string_prefix(f, none, g, none);
        },
        _ => {},
    }
}

/// Reading the frame of a response gives the response back.
pub proof fn response_round_trip(
    response: ResponseModel,
    outcome: Result<ResponseModel, ProtocolError>,
)
    requires
        response_shaped(response),
        response_error(response) is None,
        response_decoding(response_frame(response), outcome),
    ensures
        outcome == Ok::<ResponseModel, ProtocolError>(response),
{
    lemma_response_frame_says_it(response);
    if let Ok(other) = outcome {
        lemma_payload_says_one_response(
            response,
            other,
            frame_payload(response_frame(response)),
        );
    }
}

/// The model of any response has the shape that reading promises.
pub proof fn every_response_is_shaped(response: Response)
    ensures
        response_shaped(response@),
{
    if let Response::Stats(stats) = response {
        assert(stats@.words[TARGET_MET_WORD as int] == crate::protocol::messages::flag_word(
            stats.linked_phase_target_met,
        ));
        assert forall|i: int| 0 <= i < stats@.ports.len() implies
            crate::protocol::payload::port_stats_shaped(#[trigger] stats@.ports[i]) by {}
    }
}

/// Bytes that are read from the front.
pub struct ByteReader {
    bytes: Vec<u8>,
    position: usize,
}

impl ByteReader {
    pub closed spec fn wf(&self) -> bool {
        self.position <= self.bytes@.len()
    }

    /// The bytes that have not been read yet.
    pub closed spec fn remaining(&self) -> Seq<u8> {
        self.bytes@.skip(self.position as int)
    }

    pub fn new(bytes: Vec<u8>) -> (reader: Self)
        ensures
            reader.wf(),
            reader.remaining() == bytes@,
    {
        let reader = ByteReader { bytes, position: 0 };
        assert(reader.remaining() =~= bytes@);
        reader
    }

    /// Reads one frame; a stream that ends inside the frame is read to its end.
    fn read_frame(&mut self) -> (result: Result<Vec<u8>, ProtocolError>)
        requires
            old(self).wf(),
        ensures
            final(self).wf(),
            final(self).remaining() == frame_read(old(self).remaining()).1,
            match result {
                Ok(frame) => frame_read(old(self).remaining()).0 == Ok::<Seq<u8>, ProtocolError>(
                    frame@,
                ),
                Err(e) => frame_read(old(self).remaining()).0 == Err::<Seq<u8>, ProtocolError>(e),
            },
    {
        let ghost stream = self.remaining();
        let length: usize = self.bytes.len();
        let start: usize = self.position;
        if length - start < FRAME_HEADER_BYTES {
            self.position = length;
            assert(self.remaining() =~= Seq::<u8>::empty());
            return Err(ProtocolError::Io(IoErrorKind::UnexpectedEof));
        }
        let unread = vstd::slice::slice_subrange(self.bytes.as_slice(), start, length);
        assert(unread@ =~= stream);
        let payload: usize = match payload_length(unread) {
            Ok(payload) => payload,
            Err(e) => {
                self.position = start + FRAME_HEADER_BYTES;
                assert(self.remaining() =~= stream.skip(FRAME_HEADER_BYTES as int));
                return Err(e);
            },
        };
        let end: usize = FRAME_HEADER_BYTES + payload;
        if length - start < end {
            self.position = length;
            assert(self.remaining() =~= Seq::<u8>::empty());
            return Err(ProtocolError::Io(IoErrorKind::UnexpectedEof));
        }
        let frame = vstd::slice::slice_to_vec(vstd::slice::slice_subrange(unread, 0, end));
        self.position = start + end;
        assert(frame@ =~= stream.take(end as int));
        assert(self.remaining() =~= stream.skip(end as int));
        Ok(frame)
    }
}

/// Reads one request from `reader`.
pub fn read_request(reader: &mut ByteReader) -> (result: Result<Request, ProtocolError>)
    requires
        old(reader).wf(),
    ensures
        final(reader).wf(),
        final(reader).remaining() == frame_read(old(reader).remaining()).1,
        match frame_read(old(reader).remaining()).0 {
            Ok(frame) => request_decoding(frame, request_outcome(result)),
            Err(e) => result == Err::<Request, ProtocolError>(e),
        },
{
    match reader.read_frame() {
        Ok(frame) => decode_request(frame.as_slice()),
        Err(e) => Err(e),
    }
}

/// Reads one response from `reader`.
pub fn read_response(reader: &mut ByteReader) -> (result: Result<Response, ProtocolError>)
    requires
        old(reader).wf(),
    ensures
        final(reader).wf(),
        final(reader).remaining() == frame_read(old(reader).remaining()).1,
        match frame_read(old(reader).remaining()).0 {
            Ok(frame) => response_decoding(frame, response_outcome(result)),
            Err(e) => result == Err::<Response, ProtocolError>(e),
        },
{
    match reader.read_frame() {
        Ok(frame) => decode_response(frame.as_slice()),
        Err(e) => Err(e),
    }
}

/// Reading a stream that begins with a frame takes that frame and leaves the rest.
pub proof fn framed_stream_is_read_back(code: u16, payload: Seq<u8>, rest: Seq<u8>)
    requires
        payload.len() <= MAX_FRAME_PAYLOAD,
    ensures
        frame_read(frame_bytes(code, payload) + rest) == (
            Ok::<Seq<u8>, ProtocolError>(frame_bytes(code, payload)),
            rest,
        ),
{
    let frame = frame_bytes(code, payload);
    let stream = frame + rest;
    frame_is_accepted(code, payload);
    lemma_header_parts(code, payload.len());
    assert(stream.take(FRAME_HEADER_BYTES as int) =~= frame.take(FRAME_HEADER_BYTES as int));
    lemma_header_is_prefix(stream, frame);
    assert(stream.take(frame.len() as int) =~= frame);
    assert(stream.skip(frame.len() as int) =~= rest);
}

proof fn lemma_two_bytes(bytes: Seq<u8>)
    requires
        bytes.len() == 2,
    ensures
        crate::protocol::wire::le_value(bytes) == bytes[0] + 256 * bytes[1],
{
    reveal_with_fuel(crate::protocol::wire::le_value, 3);
}

proof fn lemma_four_bytes(bytes: Seq<u8>)
    requires
        bytes.len() == 4,
    ensures
        crate::protocol::wire::le_value(bytes) == bytes[0] + 256 * bytes[1] + 65536 * bytes[2]
            + 16777216 * bytes[3],
{
    reveal_with_fuel(crate::protocol::wire::le_value, 5);
}

/// A frame begins with `SALS`, the version, its code and the length of its payload, each number
/// least significant byte first; the payload follows.
pub proof fn a_frame_announces_its_payload(code: u16, payload: Seq<u8>)
    ensures
        ({
            let frame = frame_bytes(code, payload);
            &&& frame.len() == 12 + payload.len()
            &&& frame[0] == 0x53
            &&& frame[1] == 0x41
            &&& frame[2] == 0x4c
            &&& frame[3] == 0x53
            &&& frame[4] == 16
            &&& frame[5] == 0
            &&& frame[6] == code % 256
            &&& frame[7] == code / 256
            &&& frame[8] == payload.len() % 256
            &&& frame[9] == payload.len() / 256 % 256
            &&& frame[10] == payload.len() / 256 / 256 % 256
            &&& frame[11] == payload.len() / 256 / 256 / 256 % 256
            &&& frame.skip(12) == payload
        }),
{
    crate::protocol::wire::numbers_are_little_endian(PROTOCOL_VERSION as nat);
    crate::protocol::wire::numbers_are_little_endian(code as nat);
    crate::protocol::wire::numbers_are_little_endian(payload.len());
    assert(frame_bytes(code, payload).skip(12) =~= payload);
}

/// A header is refused for what is wrong with it, in this order: its first four bytes, its version,
/// and a length of more than 65536 bytes.
pub proof fn a_header_is_refused_for_what_is_wrong(header: Seq<u8>)
    requires
        header.len() >= 12,
    ensures
        ({
            let magic = header[0] == 0x53 && header[1] == 0x41 && header[2] == 0x4c && header[3]
                == 0x53;
            let version = header[4] + 256 * header[5];
            let length = header[8] + 256 * header[9] + 65536 * header[10] + 16777216 * header[11];
            &&& header_code(header) == header[6] + 256 * header[7]
            &&& header_length(header) == length
            &&& !magic ==> header_error(header) == Some(ProtocolError::InvalidMagic)
            &&& magic && version != 16 ==> header_error(header) == Some(
                ProtocolError::UnsupportedVersion(version as u16),
            )
            &&& magic && version == 16 && length > 65536 ==> header_error(header) == Some(
                ProtocolError::FrameTooLarge(length as usize),
            )
            &&& magic && version == 16 && length <= 65536 ==> header_error(header) is None
        }),
{
    lemma_two_bytes(header.subrange(4, 6));
    lemma_two_bytes(header.subrange(6, 8));
    lemma_four_bytes(header.subrange(8, 12));
    let magic = header.take(4);
    assert(PROTOCOL_MAGIC@ =~= seq![0x53u8, 0x41u8, 0x4cu8, 0x53u8]);
    if magic[0] == 0x53 && magic[1] == 0x41 && magic[2] == 0x4c && magic[3] == 0x53 {
        assert(magic =~= PROTOCOL_MAGIC@);
    } else {
        assert(PROTOCOL_MAGIC@[0] == 0x53 && PROTOCOL_MAGIC@[1] == 0x41 && PROTOCOL_MAGIC@[2]
            == 0x4c && PROTOCOL_MAGIC@[3] == 0x53);
    }
}

/// A frame is accepted when its header is and exactly the announced payload follows.
pub proof fn a_frame_is_as_long_as_it_says(frame: Seq<u8>)
    ensures
        frame.len() < 12 ==> frame_error(frame) == Some(ProtocolError::MalformedPayload),
        frame.len() >= 12 && header_error(frame) is Some ==> frame_error(frame) == header_error(
            frame,
        ),
        frame.len() >= 12 && header_error(frame) is None && frame.len() - 12 != frame[8] + 256
            * frame[9] + 65536 * frame[10] + 16777216 * frame[11] ==> frame_error(frame) == Some(
            ProtocolError::MalformedPayload,
        ),
        frame.len() >= 12 && header_error(frame) is None && frame.len() - 12 == frame[8] + 256
            * frame[9] + 65536 * frame[10] + 16777216 * frame[11] ==> frame_error(frame) is None,
{
    if frame.len() >= 12 {
        a_header_is_refused_for_what_is_wrong(frame);
    }
}

/// Requests go by the numbers one to eight.
pub proof fn requests_are_numbered(request: Request)
    ensures
        request is Hello ==> request_code(request@) == 1,
        request is GetInfo ==> request_code(request@) == 2,
        request is OpenPro ==> request_code(request@) == 3,
        request is OpenShared ==> request_code(request@) == 4,
        request is Start ==> request_code(request@) == 5,
        request is Stop ==> request_code(request@) == 6,
        request is Close ==> request_code(request@) == 7,
        request is GetStats ==> request_code(request@) == 8,
{
}

/// Responses go by the numbers one to nine.
pub proof fn responses_are_numbered(response: Response)
    ensures
        response is Hello ==> response_code(response@) == 1,
        response is Info ==> response_code(response@) == 2,
        response is OpenPro ==> response_code(response@) == 3,
        response is Ack ==> response_code(response@) == 4,
        response is Busy ==> response_code(response@) == 5,
        response is Unsupported ==> response_code(response@) == 6,
        response is Stats ==> response_code(response@) == 7,
        response is Error ==> response_code(response@) == 8,
        response is OpenShared ==> response_code(response@) == 9,
{
}

/// A request carries what it speaks of: a version in two bytes, a port by its text, a session in
/// eight bytes, and nothing otherwise.
pub proof fn a_request_carries_what_it_speaks_of(request: Request)
    ensures
        request matches Request::Hello { version } ==> {
            &&& request_payload(request@).len() == 2
            &&& request_payload(request@)[0] == version % 256
            &&& request_payload(request@)[1] == version / 256
        },
        request matches Request::OpenShared { port_id } ==> {
            &&& request_payload(request@).len() == 2 + encode_utf8(port_id@).len()
            &&& request_payload(request@).skip(2) == encode_utf8(port_id@)
            &&& encode_utf8(port_id@).len() > 65535 ==> request_error(request@) == Some(
                ProtocolError::StringTooLong(encode_utf8(port_id@).len() as usize),
            )
        },
        request matches Request::Start { session_id } ==> request_payload(request@).len() == 8
            && crate::protocol::wire::le_value(request_payload(request@)) == session_id,
        request matches Request::Stop { session_id } ==> request_payload(request@).len() == 8
            && crate::protocol::wire::le_value(request_payload(request@)) == session_id,
        request matches Request::Close { session_id } ==> request_payload(request@).len() == 8
            && crate::protocol::wire::le_value(request_payload(request@)) == session_id,
        request is GetInfo || request is OpenPro || request is GetStats ==> request_payload(
            request@,
        ).len() == 0,
{
    crate::protocol::wire::lemma_byte_spans();
    match request {
        Request::Hello { version } => {
            crate::protocol::wire::numbers_are_little_endian(version as nat);
        },
        Request::OpenShared { port_id } => {
            crate::protocol::wire::a_text_follows_its_length(port_id@);
        },
        Request::Start { session_id } => {
            crate::protocol::wire::lemma_le_len(session_id as nat, 8);
            crate::protocol::wire::lemma_le_round_trip(session_id as nat, 8);
        },
        Request::Stop { session_id } => {
            crate::protocol::wire::lemma_le_len(session_id as nat, 8);
            crate::protocol::wire::lemma_le_round_trip(session_id as nat, 8);
        },
        Request::Close { session_id } => {
            crate::protocol::wire::lemma_le_len(session_id as nat, 8);
            crate::protocol::wire::lemma_le_round_trip(session_id as nat, 8);
        },
        _ => {},
    }
}

/// A short response carries what it speaks of: the version before the features, the error's number
/// before its text, and nothing where there is nothing to say.
pub proof fn a_short_response_carries_what_it_speaks_of(response: Response)
    ensures
        response matches Response::Hello { version, features } ==> {
            let payload = response_payload(response@);
            &&& payload.len() == 6
            &&& payload[0] == version % 256
            &&& payload[1] == version / 256
            &&& payload[2] == features % 256
            &&& payload[3] == features / 256 % 256
            &&& payload[4] == features / 256 / 256 % 256
            &&& payload[5] == features / 256 / 256 / 256
        },
        response matches Response::Error { code, message } ==> {
            let payload = response_payload(response@);
            &&& payload.len() == 4 + encode_utf8(message@).len()
            &&& payload[0] == match code {
                ErrorCode::InvalidRequest => 1u8,
                ErrorCode::NotOwner => 2u8,
                ErrorCode::BadState => 3u8,
                ErrorCode::Internal => 4u8,
            }
            &&& payload[1] == 0
            &&& payload.skip(4) == encode_utf8(message@)
            &&& encode_utf8(message@).len() > 65535 ==> response_error(response@) == Some(
                ProtocolError::StringTooLong(encode_utf8(message@).len() as usize),
            )
        },
        response is Ack || response is Busy || response is Unsupported ==> response_payload(
            response@,
        ).len() == 0,
{
    match response {
        Response::Hello { version, features } => {
            crate::protocol::wire::numbers_are_little_endian(version as nat);
            crate::protocol::wire::numbers_are_little_endian(features as nat);
        },
        Response::Error { code, message } => {
            crate::protocol::wire::numbers_are_little_endian(code.value() as nat);
            crate::protocol::wire::a_text_follows_its_length(message@);
            assert(response_payload(response@).skip(4) =~= crate::protocol::wire::string_bytes(
                message@,
            ).skip(2));
        },
        _ => {},
    }
}

/// A granted session is told by its id, then the direction of a port, then the region.
pub proof fn a_grant_names_session_and_region(response: Response)
    ensures
        response matches Response::OpenPro { session_id, shared } ==> {
            let payload = response_payload(response@);
            &&& payload.len() == 56
            &&& crate::protocol::wire::le_value(payload.take(8)) == session_id
            &&& payload.skip(8) == crate::protocol::payload::shared_info_bytes(shared)
        },
        response matches Response::OpenShared { session_id, direction, shared } ==> {
            let payload = response_payload(response@);
            &&& payload.len() == 57
            &&& crate::protocol::wire::le_value(payload.take(8)) == session_id
            &&& payload[8] == match direction {
                PortDirection::Playback => 1u8,
                PortDirection::Capture => 2u8,
            }
            &&& payload.skip(9) == crate::protocol::payload::shared_info_bytes(shared)
        },
{
    crate::protocol::wire::lemma_byte_spans();
    match response {
        Response::OpenPro { session_id, shared } => {
            let payload = response_payload(response@);
            crate::protocol::payload::lemma_shared_info_len(shared);
            crate::protocol::wire::lemma_le_len(session_id as nat, 8);
            crate::protocol::wire::lemma_le_round_trip(session_id as nat, 8);
            assert(payload.take(8) =~= crate::protocol::wire::le_bytes(session_id as nat, 8));
            assert(payload.skip(8) =~= crate::protocol::payload::shared_info_bytes(shared));
        },
        Response::OpenShared { session_id, direction, shared } => {
            let payload = response_payload(response@);
            crate::protocol::payload::lemma_shared_info_len(shared);
            crate::protocol::wire::lemma_le_len(session_id as nat, 8);
            crate::protocol::wire::lemma_le_round_trip(session_id as nat, 8);
            crate::protocol::wire::numbers_are_little_endian(direction.value() as nat);
            assert(payload.take(8) =~= crate::protocol::wire::le_bytes(session_id as nat, 8));
            assert(payload.skip(9) =~= crate::protocol::payload::shared_info_bytes(shared));
        },
        _ => {},
    }
}

/// A stream is read frame by frame: too few bytes end it, a header that is refused is all that is
/// taken, and otherwise exactly the announced frame is.
pub proof fn a_stream_is_read_frame_by_frame(stream: Seq<u8>)
    ensures
        stream.len() < 12 ==> frame_read(stream).0 == Err::<Seq<u8>, ProtocolError>(
            ProtocolError::Io(IoErrorKind::UnexpectedEof),
        ),
        stream.len() >= 12 ==> (header_error(stream) matches Some(e) ==> {
            &&& frame_read(stream).0 == Err::<Seq<u8>, ProtocolError>(e)
            &&& frame_read(stream).1 == stream.skip(12)
        }),
        stream.len() >= 12 && header_error(stream) is None ==> {
            let length = stream[8] + 256 * stream[9] + 65536 * stream[10] + 16777216 * stream[11];
            &&& stream.len() >= 12 + length ==> frame_read(stream).0 == Ok::<
                Seq<u8>,
                ProtocolError,
            >(stream.take(12 + length)) && frame_read(stream).1 == stream.skip(12 + length)
            &&& stream.len() < 12 + length ==> frame_read(stream).0 == Err::<
                Seq<u8>,
                ProtocolError,
            >(ProtocolError::Io(IoErrorKind::UnexpectedEof))
        },
{
    if stream.len() >= 12 {
        a_header_is_refused_for_what_is_wrong(stream);
    }
}

} // verus!
