//! Payloads of the structured values: ports, device descriptions, regions and statistics.
use vstd::prelude::*;
use vstd::utf8::*;
use crate::protocol::messages::{
    DeviceInfo, PortInfo, ProtocolError, SharedPlaybackPortStats, SharedRegionInfo, Stats,
    DeviceInfoModel, PortInfoModel, SharedPlaybackPortStatsModel, StatsModel, GEOMETRY_FIELDS,
    PORT_COUNTERS, STATS_WORDS, TARGET_MET_WORD,
};
use crate::protocol::wire::{
    put_halves, put_string, put_u16, put_u64, put_words, Decoder, MAX_ITEMS,
};

verus! {



/// The error that writing `text` gives, if any.
pub open spec fn string_error(text: Seq<char>) -> Option<ProtocolError> {
    if crate::protocol::wire::string_fits(text) {
        None
    } else {
        Some(ProtocolError::StringTooLong(encode_utf8(text).len() as usize))
    }
}

/// The error that announcing `count` items gives, if any.
pub open spec fn count_error(count: nat) -> Option<ProtocolError> {
    if count <= MAX_ITEMS {
        None
    } else {
        Some(ProtocolError::TooManyItems)
    }
}

/// The first of two errors.
pub open spec fn first_error(
    a: Option<ProtocolError>,
    b: Option<ProtocolError>,
) -> Option<ProtocolError> {
    match a {
        Some(e) => Some(e),
        None => b,
    }
}

/// A port is written as its id, its name and its counted channels.
pub open spec fn port_bytes(port: PortInfoModel) -> Seq<u8> {
    crate::protocol::wire::string_bytes(port.id) + crate::protocol::wire::string_bytes(port.name)
        + crate::protocol::wire::le_bytes(port.channels.len(), 2)
        + crate::protocol::wire::halves_bytes(port.channels)
}

pub open spec fn port_error(port: PortInfoModel) -> Option<ProtocolError> {
    first_error(
        first_error(string_error(port.id), string_error(port.name)),
        count_error(port.channels.len()),
    )
}

/// Ports one after another.
pub open spec fn port_run_bytes(ports: Seq<PortInfoModel>) -> Seq<u8>
    decreases ports.len(),
{
    if ports.len() == 0 {
        Seq::empty()
    } else {
        port_run_bytes(ports.drop_last()) + port_bytes(ports.last())
    }
}

/// The error of the first port that cannot be written, if any.
pub open spec fn port_run_error(ports: Seq<PortInfoModel>) -> Option<ProtocolError>
    decreases ports.len(),
{
    if ports.len() == 0 {
        None
    } else {
        first_error(port_run_error(ports.drop_last()), port_error(ports.last()))
    }
}

/// A port list is its count followed by the ports.
pub open spec fn ports_bytes(ports: Seq<PortInfoModel>) -> Seq<u8> {
    crate::protocol::wire::le_bytes(ports.len(), 2) + port_run_bytes(ports)
}

pub open spec fn ports_error(ports: Seq<PortInfoModel>) -> Option<ProtocolError> {
    first_error(count_error(ports.len()), port_run_error(ports))
}

/// A device description: name, fingerprint, 32-bit fields, playback ports, capture ports.
pub open spec fn info_bytes(info: DeviceInfoModel) -> Seq<u8> {
    crate::protocol::wire::string_bytes(info.name) + crate::protocol::wire::le_bytes(
        info.profile_fingerprint as nat,
        8,
    ) + crate::protocol::wire::halves_bytes(info.geometry) + ports_bytes(info.playback_ports)
        + ports_bytes(info.capture_ports)
}

pub open spec fn info_error(info: DeviceInfoModel) -> Option<ProtocolError> {
    first_error(
        first_error(string_error(info.name), ports_error(info.playback_ports)),
        ports_error(info.capture_ports),
    )
}

/// A model that some device description has.
pub open spec fn info_shaped(info: DeviceInfoModel) -> bool {
    info.geometry.len() == GEOMETRY_FIELDS
}

/// A region description: its fields in declaration order.
pub open spec fn shared_info_bytes(info: SharedRegionInfo) -> Seq<u8> {
    crate::protocol::wire::le_bytes(info.size as nat, 8) + crate::protocol::wire::halves_bytes(
        seq![
            info.period_frames,
            info.playback_channels,
            info.capture_channels,
            info.slot_count,
        ],
    ) + crate::protocol::wire::words_bytes(
        seq![info.slot_stride, info.capture_offset, info.playback_offset],
    )
}

/// Length of a region description.
pub const SHARED_INFO_BYTES: usize = 48;

/// Counters of one shared port: its id followed by its words.
pub open spec fn port_stats_bytes(port: SharedPlaybackPortStatsModel) -> Seq<u8> {
    crate::protocol::wire::string_bytes(port.port_id) + crate::protocol::wire::words_bytes(
        port.words,
    )
}

/// A model that the counters of some shared port have.
pub open spec fn port_stats_shaped(port: SharedPlaybackPortStatsModel) -> bool {
    port.words.len() == PORT_COUNTERS
}

pub open spec fn port_stats_run_bytes(ports: Seq<SharedPlaybackPortStatsModel>) -> Seq<u8>
    decreases ports.len(),
{
    if ports.len() == 0 {
        Seq::empty()
    } else {
        port_stats_run_bytes(ports.drop_last()) + port_stats_bytes(ports.last())
    }
}

pub open spec fn port_stats_run_error(ports: Seq<SharedPlaybackPortStatsModel>) -> Option<
    ProtocolError,
>
    decreases ports.len(),
{
    if ports.len() == 0 {
        None
    } else {
        first_error(
            port_stats_run_error(ports.drop_last()),
            string_error(ports.last().port_id),
        )
    }
}

/// A report: its words, then the counted shared ports.
pub open spec fn stats_bytes(stats: StatsModel) -> Seq<u8> {
    crate::protocol::wire::words_bytes(stats.words) + crate::protocol::wire::le_bytes(
        stats.ports.len(),
        2,
    ) + port_stats_run_bytes(stats.ports)
}

pub open spec fn stats_error(stats: StatsModel) -> Option<ProtocolError> {
    first_error(count_error(stats.ports.len()), port_stats_run_error(stats.ports))
}

/// A model that some report has.
pub open spec fn stats_shaped(stats: StatsModel) -> bool {
    &&& stats.words.len() == STATS_WORDS
    &&& stats.words[TARGET_MET_WORD as int] <= 1
    &&& forall|i: int|
        0 <= i < stats.ports.len() ==> port_stats_shaped(#[trigger] stats.ports[i])
}

/// `stats` with its flag written as `word`.
pub open spec fn with_flag_word(stats: StatsModel, word: u64) -> StatsModel {
    StatsModel { words: stats.words.update(TARGET_MET_WORD as int, word), ports: stats.ports }
}

/// `bytes` says what `stats` says: any word other than zero stands for a set flag.
pub open spec fn stats_encoded_by(stats: StatsModel, bytes: Seq<u8>) -> bool {
    exists|word: u64|
        (word != 0) == (stats.words[TARGET_MET_WORD as int] != 0) && bytes == #[trigger] stats_bytes(
            with_flag_word(stats, word),
        )
}

proof fn lemma_run_error_prefix(ports: Seq<PortInfoModel>, k: int)
    requires
        0 <= k < ports.len(),
        port_run_error(ports) is None,
    ensures
        port_error(ports[k]) is None,
        port_run_error(ports.take(k)) is None,
    decreases ports.len(),
{
    if k < ports.len() - 1 {
        lemma_run_error_prefix(ports.drop_last(), k);
        assert(ports.drop_last().take(k) =~= ports.take(k));
    } else {
        assert(ports.take(k) =~= ports.drop_last());
    }
}

/// The error of a prefix is the error of the whole.
proof fn lemma_run_error_extends(ports: Seq<PortInfoModel>, k: int)
    requires
        0 <= k <= ports.len(),
        port_run_error(ports.take(k)) is Some,
    ensures
        port_run_error(ports) == port_run_error(ports.take(k)),
    decreases ports.len(),
{
    if k < ports.len() {
        assert(ports.drop_last().take(k) =~= ports.take(k));
        lemma_run_error_extends(ports.drop_last(), k);
    } else {
        assert(ports.take(k) =~= ports);
    }
}

proof fn lemma_run_splits(ports: Seq<PortInfoModel>, k: int)
    requires
        0 <= k < ports.len(),
    ensures
        exists|rest: Seq<u8>|
            port_run_bytes(ports) == #[trigger] (port_run_bytes(ports.take(k)) + (port_bytes(ports[k])
                + rest)),
    decreases ports.len(),
{
    if k < ports.len() - 1 {
        let front = ports.drop_last();
        lemma_run_splits(front, k);
        assert(front.take(k) =~= ports.take(k));
        let rest = choose|rest: Seq<u8>|
            port_run_bytes(front) == #[trigger] (port_run_bytes(front.take(k)) + (port_bytes(front[k])
                + rest));
        let longer = rest + port_bytes(ports.last());
        assert(port_run_bytes(ports) =~= port_run_bytes(ports.take(k)) + (port_bytes(ports[k])
            + longer));
    } else {
        assert(ports.take(k) =~= ports.drop_last());
        assert(port_run_bytes(ports) =~= port_run_bytes(ports.take(k)) + (port_bytes(ports[k])
            + Seq::<u8>::empty()));
    }
}

proof fn lemma_port_prefix(a: PortInfoModel, x: Seq<u8>, b: PortInfoModel, y: Seq<u8>)
    requires
        port_bytes(a) + x == port_bytes(b) + y,
        port_error(a) is None,
        port_error(b) is None,
    ensures
        a == b,
        x == y,
{
    crate::protocol::wire::lemma_byte_spans();
    let ca = crate::protocol::wire::halves_bytes(a.channels) + x;
    let cb = crate::protocol::wire::halves_bytes(b.channels) + y;
    let na = crate::protocol::wire::le_bytes(a.channels.len(), 2) + ca;
    let nb = crate::protocol::wire::le_bytes(b.channels.len(), 2) + cb;
    let ta = crate::protocol::wire::string_bytes(a.name) + na;
    let tb = crate::protocol::wire::string_bytes(b.name) + nb;
    assert(port_bytes(a) + x =~= crate::protocol::wire::string_bytes(a.id) + ta);
    assert(port_bytes(b) + y =~= crate::protocol::wire::string_bytes(b.id) + tb);
    crate::protocol::wire::lemma_string_prefix(a.id, ta, b.id, tb);
    crate::protocol::wire::lemma_string_prefix(a.name, na, b.name, nb);
    crate::protocol::wire::lemma_le_prefix(a.channels.len(), ca, b.channels.len(), cb, 2);
    crate::protocol::wire::lemma_halves_prefix(a.channels, x, b.channels, y);
}

proof fn lemma_run_prefix(
    a: Seq<PortInfoModel>,
    x: Seq<u8>,
    b: Seq<PortInfoModel>,
    y: Seq<u8>,
)
    requires
        port_run_bytes(a) + x == port_run_bytes(b) + y,
        a.len() == b.len(),
        port_run_error(a) is None,
        port_run_error(b) is None,
    ensures
        a == b,
        x == y,
    decreases a.len(),
{
    if a.len() > 0 {
        let la = port_bytes(a.last());
        let lb = port_bytes(b.last());
        assert(port_run_bytes(a) + x =~= port_run_bytes(a.drop_last()) + (la + x));
        assert(port_run_bytes(b) + y =~= port_run_bytes(b.drop_last()) + (lb + y));
        lemma_run_prefix(a.drop_last(), la + x, b.drop_last(), lb + y);
        lemma_port_prefix(a.last(), x, b.last(), y);
        assert(a =~= a.drop_last().push(a.last()));
        assert(b =~= b.drop_last().push(b.last()));
    } else {
        assert(port_run_bytes(a) + x =~= x);
        assert(port_run_bytes(b) + y =~= y);
        assert(a =~= b);
    }
}

pub proof fn lemma_ports_prefix(
    a: Seq<PortInfoModel>,
    x: Seq<u8>,
    b: Seq<PortInfoModel>,
    y: Seq<u8>,
)
    requires
        ports_bytes(a) + x == ports_bytes(b) + y,
        ports_error(a) is None,
        ports_error(b) is None,
    ensures
        a == b,
        x == y,
{
    crate::protocol::wire::lemma_byte_spans();
    assert(ports_bytes(a) + x =~= crate::protocol::wire::le_bytes(a.len(), 2) + (port_run_bytes(a)
        + x));
    assert(ports_bytes(b) + y =~= crate::protocol::wire::le_bytes(b.len(), 2) + (port_run_bytes(b)
        + y));
    crate::protocol::wire::lemma_le_prefix(
        a.len(),
        port_run_bytes(a) + x,
        b.len(),
        port_run_bytes(b) + y,
        2,
    );
    lemma_run_prefix(a, x, b, y);
}

/// What follows the name of a description.
spec fn after_name(info: DeviceInfoModel, rest: Seq<u8>) -> Seq<u8> {
    crate::protocol::wire::le_bytes(info.profile_fingerprint as nat, 8) + after_fingerprint(
        info,
        rest,
    )
}

/// What follows the fingerprint of a description.
spec fn after_fingerprint(info: DeviceInfoModel, rest: Seq<u8>) -> Seq<u8> {
    crate::protocol::wire::halves_bytes(info.geometry) + (ports_bytes(info.playback_ports) + (
    ports_bytes(info.capture_ports) + rest))
}

proof fn lemma_associative(a: Seq<u8>, b: Seq<u8>, c: Seq<u8>)
    ensures
        (a + b) + c == a + (b + c),
{
    assert((a + b) + c =~= a + (b + c));
}

/// A description begins with its name.
proof fn lemma_info_layout(info: DeviceInfoModel, rest: Seq<u8>)
    ensures
        info_bytes(info) + rest == crate::protocol::wire::string_bytes(info.name) + after_name(
            info,
            rest,
        ),
{
    let a = crate::protocol::wire::string_bytes(info.name);
    let b = crate::protocol::wire::le_bytes(info.profile_fingerprint as nat, 8);
    let c = crate::protocol::wire::halves_bytes(info.geometry);
    let d = ports_bytes(info.playback_ports);
    let e = ports_bytes(info.capture_ports);
    lemma_associative(a + b + c + d, e, rest);
    lemma_associative(a + b + c, d, e + rest);
    lemma_associative(a + b, c, d + (e + rest));
    lemma_associative(a, b, c + (d + (e + rest)));
}

pub proof fn lemma_info_prefix(a: DeviceInfoModel, x: Seq<u8>, b: DeviceInfoModel, y: Seq<u8>)
    requires
        info_bytes(a) + x == info_bytes(b) + y,
        info_error(a) is None,
        info_error(b) is None,
        info_shaped(a),
        info_shaped(b),
    ensures
        a == b,
        x == y,
{
    crate::protocol::wire::lemma_byte_spans();
    lemma_info_layout(a, x);
    lemma_info_layout(b, y);
    crate::protocol::wire::lemma_string_prefix(
        a.name,
        after_name(a, x),
        b.name,
        after_name(b, y),
    );
    crate::protocol::wire::lemma_le_prefix(
        a.profile_fingerprint as nat,
        after_fingerprint(a, x),
        b.profile_fingerprint as nat,
        after_fingerprint(b, y),
        8,
    );
    let ca = ports_bytes(a.capture_ports) + x;
    let cb = ports_bytes(b.capture_ports) + y;
    crate::protocol::wire::lemma_halves_prefix(
        a.geometry,
        ports_bytes(a.playback_ports) + ca,
        b.geometry,
        ports_bytes(b.playback_ports) + cb,
    );
    lemma_ports_prefix(a.playback_ports, ca, b.playback_ports, cb);
    lemma_ports_prefix(a.capture_ports, x, b.capture_ports, y);
}

pub proof fn lemma_shared_info_len(info: SharedRegionInfo)
    ensures
        shared_info_bytes(info).len() == SHARED_INFO_BYTES,
{
    crate::protocol::wire::lemma_le_len(info.size as nat, 8);
    crate::protocol::wire::lemma_halves_len(
        seq![
            info.period_frames,
            info.playback_channels,
            info.capture_channels,
            info.slot_count,
        ],
    );
    crate::protocol::wire::lemma_words_len(
        seq![info.slot_stride, info.capture_offset, info.playback_offset],
    );
}

pub proof fn lemma_shared_info_prefix(
    a: SharedRegionInfo,
    x: Seq<u8>,
    b: SharedRegionInfo,
    y: Seq<u8>,
)
    requires
        shared_info_bytes(a) + x == shared_info_bytes(b) + y,
    ensures
        a == b,
        x == y,
{
    crate::protocol::wire::lemma_byte_spans();
    let ha = seq![a.period_frames, a.playback_channels, a.capture_channels, a.slot_count];
    let hb = seq![b.period_frames, b.playback_channels, b.capture_channels, b.slot_count];
    let wa = seq![a.slot_stride, a.capture_offset, a.playback_offset];
    let wb = seq![b.slot_stride, b.capture_offset, b.playback_offset];
    let ra = crate::protocol::wire::words_bytes(wa) + x;
    let rb = crate::protocol::wire::words_bytes(wb) + y;
    let ga = crate::protocol::wire::halves_bytes(ha) + ra;
    let gb = crate::protocol::wire::halves_bytes(hb) + rb;
    assert(shared_info_bytes(a) + x =~= crate::protocol::wire::le_bytes(a.size as nat, 8) + ga);
    assert(shared_info_bytes(b) + y =~= crate::protocol::wire::le_bytes(b.size as nat, 8) + gb);
    crate::protocol::wire::lemma_le_prefix(a.size as nat, ga, b.size as nat, gb, 8);
    crate::protocol::wire::lemma_halves_prefix(ha, ra, hb, rb);
    crate::protocol::wire::lemma_words_prefix(wa, x, wb, y);
    assert(ha[0] == hb[0] && ha[1] == hb[1] && ha[2] == hb[2] && ha[3] == hb[3]);
    assert(wa[0] == wb[0] && wa[1] == wb[1] && wa[2] == wb[2]);
}

proof fn lemma_stats_run_error_prefix(ports: Seq<SharedPlaybackPortStatsModel>, k: int)
    requires
        0 <= k < ports.len(),
        port_stats_run_error(ports) is None,
    ensures
        string_error(ports[k].port_id) is None,
        port_stats_run_error(ports.take(k)) is None,
    decreases ports.len(),
{
    if k < ports.len() - 1 {
        lemma_stats_run_error_prefix(ports.drop_last(), k);
        assert(ports.drop_last().take(k) =~= ports.take(k));
    } else {
        assert(ports.take(k) =~= ports.drop_last());
    }
}

proof fn lemma_stats_run_error_extends(ports: Seq<SharedPlaybackPortStatsModel>, k: int)
    requires
        0 <= k <= ports.len(),
        port_stats_run_error(ports.take(k)) is Some,
    ensures
        port_stats_run_error(ports) == port_stats_run_error(ports.take(k)),
    decreases ports.len(),
{
    if k < ports.len() {
        assert(ports.drop_last().take(k) =~= ports.take(k));
        lemma_stats_run_error_extends(ports.drop_last(), k);
    } else {
        assert(ports.take(k) =~= ports);
    }
}

proof fn lemma_stats_run_splits(ports: Seq<SharedPlaybackPortStatsModel>, k: int)
    requires
        0 <= k < ports.len(),
    ensures
        exists|rest: Seq<u8>|
            port_stats_run_bytes(ports) == #[trigger] (port_stats_run_bytes(ports.take(k)) + (
            port_stats_bytes(ports[k]) + rest)),
    decreases ports.len(),
{
    if k < ports.len() - 1 {
        let front = ports.drop_last();
        lemma_stats_run_splits(front, k);
        assert(front.take(k) =~= ports.take(k));
        let rest = choose|rest: Seq<u8>|
            port_stats_run_bytes(front) == #[trigger] (port_stats_run_bytes(front.take(k)) + (
            port_stats_bytes(front[k]) + rest));
        let longer = rest + port_stats_bytes(ports.last());
        assert(port_stats_run_bytes(ports) =~= port_stats_run_bytes(ports.take(k)) + (
        port_stats_bytes(ports[k]) + longer));
    } else {
        assert(ports.take(k) =~= ports.drop_last());
        assert(port_stats_run_bytes(ports) =~= port_stats_run_bytes(ports.take(k)) + (
        port_stats_bytes(ports[k]) + Seq::<u8>::empty()));
    }
}

proof fn lemma_port_stats_prefix(
    a: SharedPlaybackPortStatsModel,
    x: Seq<u8>,
    b: SharedPlaybackPortStatsModel,
    y: Seq<u8>,
)
    requires
        port_stats_bytes(a) + x == port_stats_bytes(b) + y,
        string_error(a.port_id) is None,
        string_error(b.port_id) is None,
        port_stats_shaped(a),
        port_stats_shaped(b),
    ensures
        a == b,
        x == y,
{
    let wa = crate::protocol::wire::words_bytes(a.words) + x;
    let wb = crate::protocol::wire::words_bytes(b.words) + y;
    assert(port_stats_bytes(a) + x =~= crate::protocol::wire::string_bytes(a.port_id) + wa);
    assert(port_stats_bytes(b) + y =~= crate::protocol::wire::string_bytes(b.port_id) + wb);
    crate::protocol::wire::lemma_string_prefix(a.port_id, wa, b.port_id, wb);
    crate::protocol::wire::lemma_words_prefix(a.words, x, b.words, y);
}

spec fn all_shaped(ports: Seq<SharedPlaybackPortStatsModel>) -> bool {
    forall|i: int| 0 <= i < ports.len() ==> port_stats_shaped(#[trigger] ports[i])
}

proof fn lemma_stats_run_prefix(
    a: Seq<SharedPlaybackPortStatsModel>,
    x: Seq<u8>,
    b: Seq<SharedPlaybackPortStatsModel>,
    y: Seq<u8>,
)
    requires
        port_stats_run_bytes(a) + x == port_stats_run_bytes(b) + y,
        a.len() == b.len(),
        port_stats_run_error(a) is None,
        port_stats_run_error(b) is None,
        all_shaped(a),
        all_shaped(b),
    ensures
        a == b,
        x == y,
    decreases a.len(),
{
    if a.len() > 0 {
        let la = port_stats_bytes(a.last());
        let lb = port_stats_bytes(b.last());
        assert(port_stats_run_bytes(a) + x =~= port_stats_run_bytes(a.drop_last()) + (la + x));
        assert(port_stats_run_bytes(b) + y =~= port_stats_run_bytes(b.drop_last()) + (lb + y));
        assert(all_shaped(a.drop_last()) && all_shaped(b.drop_last()));
        lemma_stats_run_prefix(a.drop_last(), la + x, b.drop_last(), lb + y);
        lemma_port_stats_prefix(a.last(), x, b.last(), y);
        assert(a =~= a.drop_last().push(a.last()));
        assert(b =~= b.drop_last().push(b.last()));
    } else {
        assert(port_stats_run_bytes(a) + x =~= x);
        assert(port_stats_run_bytes(b) + y =~= y);
        assert(a =~= b);
    }
}

/// Equal report bytes come from equal words and equal ports.
pub proof fn lemma_stats_prefix(a: StatsModel, x: Seq<u8>, b: StatsModel, y: Seq<u8>)
    requires
        stats_bytes(a) + x == stats_bytes(b) + y,
        stats_error(a) is None,
        stats_error(b) is None,
        a.words.len() == b.words.len(),
        forall|i: int| 0 <= i < a.ports.len() ==> port_stats_shaped(#[trigger] a.ports[i]),
        forall|i: int| 0 <= i < b.ports.len() ==> port_stats_shaped(#[trigger] b.ports[i]),
    ensures
        a == b,
        x == y,
{
    crate::protocol::wire::lemma_byte_spans();
    let ra = port_stats_run_bytes(a.ports) + x;
    let rb = port_stats_run_bytes(b.ports) + y;
    let na = crate::protocol::wire::le_bytes(a.ports.len(), 2) + ra;
    let nb = crate::protocol::wire::le_bytes(b.ports.len(), 2) + rb;
    assert(stats_bytes(a) + x =~= crate::protocol::wire::words_bytes(a.words) + na);
    assert(stats_bytes(b) + y =~= crate::protocol::wire::words_bytes(b.words) + nb);
    crate::protocol::wire::lemma_words_prefix(a.words, na, b.words, nb);
    crate::protocol::wire::lemma_le_prefix(a.ports.len(), ra, b.ports.len(), rb, 2);
    lemma_stats_run_prefix(a.ports, x, b.ports, y);
}

fn encode_port(payload: &mut Vec<u8>, port: &PortInfo) -> (result: Result<(), ProtocolError>)
    ensures
        match result {
            Ok(_) => port_error(port@) is None && final(payload)@ == old(payload)@ + port_bytes(
                port@,
            ),
            Err(e) => port_error(port@) == Some(e),
        },
{
    if let Err(e) = put_string(payload, port.id.as_str()) {
        return Err(e);
    }
    if let Err(e) = put_string(payload, port.name.as_str()) {
        return Err(e);
    }
    if port.channels.len() > MAX_ITEMS {
        return Err(ProtocolError::TooManyItems);
    }
    put_u16(payload, port.channels.len() as u16);
    put_halves(payload, port.channels.as_slice());
    assert(payload@ =~= old(payload)@ + port_bytes(port@));
    Ok(())
}

/// Appends a counted port list.
pub fn encode_ports(payload: &mut Vec<u8>, ports: &[PortInfo]) -> (result: Result<
    (),
    ProtocolError,
>)
    ensures
        match result {
            Ok(_) => {
                &&& ports_error(crate::protocol::messages::port_models(ports@)) is None
                &&& final(payload)@ == old(payload)@ + ports_bytes(
                    crate::protocol::messages::port_models(ports@),
                )
            },
            Err(e) => ports_error(crate::protocol::messages::port_models(ports@)) == Some(e),
        },
{
    if ports.len() > MAX_ITEMS {
        return Err(ProtocolError::TooManyItems);
    }
    put_u16(payload, ports.len() as u16);
    let ghost models = crate::protocol::messages::port_models(ports@);
    let ghost counted = payload@;
    let mut i: usize = 0;
    assert(payload@ =~= counted + port_run_bytes(models.take(0)));
    while i < ports.len()
        invariant
            i <= ports.len() <= MAX_ITEMS,
            models == crate::protocol::messages::port_models(ports@),
            payload@ == counted + port_run_bytes(models.take(i as int)),
            port_run_error(models.take(i as int)) is None,
        decreases ports.len() - i,
    {
        proof {
            assert(models.take(i + 1).drop_last() =~= models.take(i as int));
        }
        if let Err(e) = encode_port(payload, &ports[i]) {
            proof {
                lemma_run_error_extends(models, i + 1);
            }
            return Err(e);
        }
        assert(payload@ =~= counted + port_run_bytes(models.take(i + 1)));
        i = i + 1;
    }
    assert(models.take(i as int) =~= models);
    assert(payload@ =~= old(payload)@ + ports_bytes(models));
    Ok(())
}

fn decode_port(decoder: &mut Decoder<'_>) -> (result: Result<PortInfo, ProtocolError>)
    requires
        old(decoder).wf(),
    ensures
        final(decoder).wf(),
        match result {
            Ok(port) => port_error(port@) is None && old(decoder).remaining() == port_bytes(port@)
                + final(decoder).remaining(),
            Err(e) => e == ProtocolError::MalformedPayload && forall|
                port: PortInfoModel,
                rest: Seq<u8>,
            |
                port_error(port) is None ==> old(decoder).remaining() != #[trigger] (port_bytes(
                    port,
                ) + rest),
        },
{
    proof {
        crate::protocol::wire::lemma_byte_spans();
    }
    let ghost start = decoder.remaining();
    let id = match decoder.string() {
        Ok(id) => id,
        Err(e) => {
            assert forall|port: PortInfoModel, rest: Seq<u8>|
                port_error(port) is None implies start != #[trigger] (port_bytes(port) + rest) by {
                assert(port_bytes(port) + rest =~= crate::protocol::wire::string_bytes(port.id) + (
                crate::protocol::wire::string_bytes(port.name) + crate::protocol::wire::le_bytes(
                    port.channels.len(),
                    2,
                ) + crate::protocol::wire::halves_bytes(port.channels) + rest));
            }
            return Err(e);
        },
    };
    let ghost at_name = decoder.remaining();
    let name = match decoder.string() {
        Ok(name) => name,
        Err(e) => {
            assert forall|port: PortInfoModel, rest: Seq<u8>|
                port_error(port) is None implies start != #[trigger] (port_bytes(port) + rest) by {
                let tail = crate::protocol::wire::le_bytes(port.channels.len(), 2)
                    + crate::protocol::wire::halves_bytes(port.channels) + rest;
                let named = crate::protocol::wire::string_bytes(port.name) + tail;
                assert(port_bytes(port) + rest =~= crate::protocol::wire::string_bytes(port.id)
                    + named);
                if start == port_bytes(port) + rest {
                    crate::protocol::wire::lemma_string_prefix(id@, at_name, port.id, named);
                }
            }
            return Err(e);
        },
    };
    let ghost at_count = decoder.remaining();
    let ghost before_count = decoder.remaining();
    assert forall|port: PortInfoModel, rest: Seq<u8>|
        port_error(port) is None && start == #[trigger] (port_bytes(port) + rest) implies at_count
        == crate::protocol::wire::le_bytes(port.channels.len(), 2) + (
    crate::protocol::wire::halves_bytes(port.channels) + rest) by {
        let tail = crate::protocol::wire::le_bytes(port.channels.len(), 2) + (
        crate::protocol::wire::halves_bytes(port.channels) + rest);
        let named = crate::protocol::wire::string_bytes(port.name) + tail;
        assert(port_bytes(port) + rest =~= crate::protocol::wire::string_bytes(port.id) + named);
        crate::protocol::wire::lemma_string_prefix(id@, at_name, port.id, named);
        crate::protocol::wire::lemma_string_prefix(name@, at_count, port.name, tail);
    }
    let count: u16 = match decoder.u16() {
        Ok(count) => count,
        Err(e) => {
            assert forall|port: PortInfoModel, rest: Seq<u8>|
                port_error(port) is None implies start != #[trigger] (port_bytes(port) + rest) by {
                crate::protocol::wire::lemma_le_len(port.channels.len(), 2);
            }
            return Err(e);
        },
    };
    let ghost at_channels = decoder.remaining();
    let channels = match decoder.halves(count as usize) {
        Ok(channels) => channels,
        Err(e) => {
            assert forall|port: PortInfoModel, rest: Seq<u8>|
                port_error(port) is None implies start != #[trigger] (port_bytes(port) + rest) by {
                if start == port_bytes(port) + rest {
                    crate::protocol::wire::lemma_le_prefix(
                        count as nat,
                        at_channels,
                        port.channels.len(),
                        crate::protocol::wire::halves_bytes(port.channels) + rest,
                        2,
                    );
                    crate::protocol::wire::lemma_halves_len(port.channels);
                }
            }
            return Err(e);
        },
    };
    let port = PortInfo { id, name, channels };
    assert(start =~= port_bytes(port@) + decoder.remaining());
    Ok(port)
}

/// Reads a counted port list. It fails exactly when the input does not begin with one.
pub fn decode_ports(decoder: &mut Decoder<'_>) -> (result: Result<Vec<PortInfo>, ProtocolError>)
    requires
        old(decoder).wf(),
    ensures
        final(decoder).wf(),
        match result {
            Ok(ports) => {
                &&& ports_error(crate::protocol::messages::port_models(ports@)) is None
                &&& old(decoder).remaining() == ports_bytes(
                    crate::protocol::messages::port_models(ports@),
                ) + final(decoder).remaining()
            },
            Err(e) => e == ProtocolError::MalformedPayload && forall|
                ports: Seq<PortInfoModel>,
                rest: Seq<u8>,
            |
                ports_error(ports) is None ==> old(decoder).remaining() != #[trigger] (ports_bytes(
                    ports,
                ) + rest),
        },
{
    proof {
        crate::protocol::wire::lemma_byte_spans();
    }
    let ghost start = decoder.remaining();
    let count: u16 = match decoder.u16() {
        Ok(count) => count,
        Err(e) => {
            assert forall|ports: Seq<PortInfoModel>, rest: Seq<u8>|
                ports_error(ports) is None implies start != #[trigger] (ports_bytes(ports)
                + rest) by {
                crate::protocol::wire::lemma_le_len(ports.len(), 2);
            }
            return Err(e);
        },
    };
    let ghost counted = decoder.remaining();
    let mut ports: Vec<PortInfo> = Vec::new();
    let ghost mut models = Seq::<PortInfoModel>::empty();
    assert(counted =~= port_run_bytes(models) + decoder.remaining());
    while ports.len() < count as usize
        invariant
            decoder.wf(),
            start == old(decoder).remaining(),
            start == crate::protocol::wire::le_bytes(count as nat, 2) + counted,
            ports@.len() <= count,
            models == crate::protocol::messages::port_models(ports@),
            counted == port_run_bytes(models) + decoder.remaining(),
            port_run_error(models) is None,
            crate::protocol::wire::byte_span(2) == 0x1_0000,
        decreases count - ports.len(),
    {
        let ghost here = decoder.remaining();
        match decode_port(decoder) {
            Ok(port) => {
                ports.push(port);
                proof {
                    let longer = models.push(port@);
                    assert(longer.drop_last() =~= models);
                    assert(longer =~= crate::protocol::messages::port_models(ports@));
                    assert(counted =~= port_run_bytes(longer) + decoder.remaining());
                    models = longer;
                }
            },
            Err(e) => {
                assert forall|all: Seq<PortInfoModel>, rest: Seq<u8>|
                    ports_error(all) is None implies start != #[trigger] (ports_bytes(all)
                    + rest) by {
                    if start == ports_bytes(all) + rest {
                        let k = models.len() as int;
                        assert(ports_bytes(all) + rest =~= crate::protocol::wire::le_bytes(
                            all.len(),
                            2,
                        ) + (port_run_bytes(all) + rest));
                        crate::protocol::wire::lemma_le_prefix(
                            count as nat,
                            counted,
                            all.len(),
                            port_run_bytes(all) + rest,
                            2,
                        );
                        lemma_run_splits(all, k);
                        lemma_run_error_prefix(all, k);
                        let tail = choose|tail: Seq<u8>|
                            port_run_bytes(all) == #[trigger] (port_run_bytes(all.take(k)) + (
                            port_bytes(all[k]) + tail));
                        assert(counted =~= port_run_bytes(all.take(k)) + (port_bytes(all[k]) + (tail
                            + rest)));
                        lemma_run_prefix(
                            models,
                            here,
                            all.take(k),
                            port_bytes(all[k]) + (tail + rest),
                        );
                    }
                }
                return Err(e);
            },
        }
    }
    assert(start =~= ports_bytes(models) + decoder.remaining());
    Ok(ports)
}

/// Appends a device description.
pub fn encode_info(payload: &mut Vec<u8>, info: &DeviceInfo) -> (result: Result<
    (),
    ProtocolError,
>)
    ensures
        match result {
            Ok(_) => info_error(info@) is None && final(payload)@ == old(payload)@ + info_bytes(
                info@,
            ),
            Err(e) => info_error(info@) == Some(e),
        },
{
    if let Err(e) = put_string(payload, info.name.as_str()) {
        return Err(e);
    }
    put_u64(payload, info.profile_fingerprint);
    let geometry: [u32; 11] = [
        info.rate,
        info.period_size,
        info.hardware_period_size,
        info.buffer_size,
        info.shared_buffer_size,
        info.pro_latency_periods,
        info.pro_output_latency_frames,
        info.pro_realtime_priority,
        info.shared_latency_periods,
        info.playback_channels,
        info.capture_channels,
    ];
    assert(geometry@ =~= crate::protocol::messages::info_geometry(*info));
    put_halves(payload, &geometry);
    if let Err(e) = encode_ports(payload, info.playback_ports.as_slice()) {
        return Err(e);
    }
    if let Err(e) = encode_ports(payload, info.capture_ports.as_slice()) {
        return Err(e);
    }
    assert(payload@ =~= old(payload)@ + info_bytes(info@));
    Ok(())
}

/// The description that has the given parts.
fn info_of_parts(
    name: String,
    profile_fingerprint: u64,
    geometry: &Vec<u32>,
    playback_ports: Vec<PortInfo>,
    capture_ports: Vec<PortInfo>,
) -> (info: DeviceInfo)
    requires
        geometry@.len() == GEOMETRY_FIELDS,
    ensures
        info.name == name,
        info.profile_fingerprint == profile_fingerprint,
        crate::protocol::messages::info_geometry(info) == geometry@,
        info.playback_ports == playback_ports,
        info.capture_ports == capture_ports,
{
    let info = DeviceInfo {
        name,
        profile_fingerprint,
        rate: geometry[0],
        period_size: geometry[1],
        hardware_period_size: geometry[2],
        buffer_size: geometry[3],
        shared_buffer_size: geometry[4],
        pro_latency_periods: geometry[5],
        pro_output_latency_frames: geometry[6],
        pro_realtime_priority: geometry[7],
        shared_latency_periods: geometry[8],
        playback_channels: geometry[9],
        capture_channels: geometry[10],
        playback_ports,
        capture_ports,
    };
    assert(crate::protocol::messages::info_geometry(info) =~= geometry@);
    info
}

/// Where the ports of a description begin, when the input begins with the description.
proof fn lemma_info_ports_at(
    info: DeviceInfoModel,
    rest: Seq<u8>,
    name: Seq<char>,
    fingerprint: u64,
    geometry: Seq<u32>,
    at_playback: Seq<u8>,
)
    requires
        info_error(info) is None,
        info_shaped(info),
        crate::protocol::wire::string_fits(name),
        geometry.len() == GEOMETRY_FIELDS,
        crate::protocol::wire::string_bytes(name) + (crate::protocol::wire::le_bytes(
            fingerprint as nat,
            8,
        ) + (crate::protocol::wire::halves_bytes(geometry) + at_playback)) == info_bytes(info)
            + rest,
    ensures
        at_playback == ports_bytes(info.playback_ports) + (ports_bytes(info.capture_ports) + rest),
{
    crate::protocol::wire::lemma_byte_spans();
    lemma_info_layout(info, rest);
    let at_geometry = crate::protocol::wire::halves_bytes(geometry) + at_playback;
    let at_fingerprint = crate::protocol::wire::le_bytes(fingerprint as nat, 8) + at_geometry;
    crate::protocol::wire::lemma_string_prefix(
        name,
        at_fingerprint,
        info.name,
        after_name(info, rest),
    );
    crate::protocol::wire::lemma_le_prefix(
        fingerprint as nat,
        at_geometry,
        info.profile_fingerprint as nat,
        after_fingerprint(info, rest),
        8,
    );
    crate::protocol::wire::lemma_halves_prefix(
        geometry,
        at_playback,
        info.geometry,
        ports_bytes(info.playback_ports) + (ports_bytes(info.capture_ports) + rest),
    );
}

/// The scalar part of a description.
struct InfoHead {
    name: String,
    profile_fingerprint: u64,
    geometry: Vec<u32>,
}

fn decode_info_head(decoder: &mut Decoder<'_>) -> (result: Result<InfoHead, ProtocolError>)
    requires
        old(decoder).wf(),
    ensures
        final(decoder).wf(),
        match result {
            Ok(head) => {
                &&& crate::protocol::wire::string_fits(head.name@)
                &&& head.geometry@.len() == GEOMETRY_FIELDS
                &&& old(decoder).remaining() == crate::protocol::wire::string_bytes(head.name@) + (
                crate::protocol::wire::le_bytes(head.profile_fingerprint as nat, 8) + (
                crate::protocol::wire::halves_bytes(head.geometry@) + final(decoder).remaining()))
            },
            Err(e) => e == ProtocolError::MalformedPayload && forall|
                info: DeviceInfoModel,
                rest: Seq<u8>,
            |
                info_error(info) is None && info_shaped(info) ==> old(decoder).remaining()
                    != #[trigger] (info_bytes(info) + rest),
        },
{
    proof {
        crate::protocol::wire::lemma_byte_spans();
    }
    let ghost start = decoder.remaining();
    let name = match decoder.string() {
        Ok(name) => name,
        Err(e) => {
            assert forall|info: DeviceInfoModel, rest: Seq<u8>|
                info_error(info) is None && info_shaped(info) implies start != #[trigger] (
            info_bytes(info) + rest) by {
                lemma_info_layout(info, rest);
            }
            return Err(e);
        },
    };
    let ghost at_fingerprint = decoder.remaining();
    let profile_fingerprint: u64 = match decoder.u64() {
        Ok(value) => value,
        Err(e) => {
            assert forall|info: DeviceInfoModel, rest: Seq<u8>|
                info_error(info) is None && info_shaped(info) implies start != #[trigger] (
            info_bytes(info) + rest) by {
                lemma_info_layout(info, rest);
                if start == info_bytes(info) + rest {
                    crate::protocol::wire::lemma_string_prefix(
                        name@,
                        at_fingerprint,
                        info.name,
                        after_name(info, rest),
                    );
                    crate::protocol::wire::lemma_le_len(info.profile_fingerprint as nat, 8);
                }
            }
            return Err(e);
        },
    };
    let ghost at_geometry = decoder.remaining();
    let geometry = match decoder.halves(GEOMETRY_FIELDS) {
        Ok(values) => values,
        Err(e) => {
            assert forall|info: DeviceInfoModel, rest: Seq<u8>|
                info_error(info) is None && info_shaped(info) implies start != #[trigger] (
            info_bytes(info) + rest) by {
                lemma_info_layout(info, rest);
                if start == info_bytes(info) + rest {
                    crate::protocol::wire::lemma_string_prefix(
                        name@,
                        at_fingerprint,
                        info.name,
                        after_name(info, rest),
                    );
                    crate::protocol::wire::lemma_le_prefix(
                        profile_fingerprint as nat,
                        at_geometry,
                        info.profile_fingerprint as nat,
                        after_fingerprint(info, rest),
                        8,
                    );
                    crate::protocol::wire::lemma_halves_len(info.geometry);
                }
            }
            return Err(e);
        },
    };
    Ok(InfoHead { name, profile_fingerprint, geometry })
}

/// Reads a device description. It fails exactly when the input does not begin with one.
pub fn decode_info(decoder: &mut Decoder<'_>) -> (result: Result<DeviceInfo, ProtocolError>)
    requires
        old(decoder).wf(),
    ensures
        final(decoder).wf(),
        match result {
            Ok(info) => info_error(info@) is None && info_shaped(info@) && old(decoder).remaining()
                == info_bytes(info@) + final(decoder).remaining(),
            Err(e) => e == ProtocolError::MalformedPayload && forall|
                info: DeviceInfoModel,
                rest: Seq<u8>,
            |
                info_error(info) is None && info_shaped(info) ==> old(decoder).remaining()
                    != #[trigger] (info_bytes(info) + rest),
        },
{
    let ghost start = decoder.remaining();
    let head = match decode_info_head(decoder) {
        Ok(head) => head,
        Err(e) => {
            return Err(e);
        },
    };
    let ghost at_playback = decoder.remaining();
    let playback_ports = match decode_ports(decoder) {
        Ok(ports) => ports,
        Err(e) => {
            assert forall|info: DeviceInfoModel, rest: Seq<u8>|
                info_error(info) is None && info_shaped(info) implies start != #[trigger] (
            info_bytes(info) + rest) by {
                if start == info_bytes(info) + rest {
                    lemma_info_ports_at(
                        info,
                        rest,
                        head.name@,
                        head.profile_fingerprint,
                        head.geometry@,
                        at_playback,
                    );
                }
            }
            return Err(e);
        },
    };
    let ghost at_capture = decoder.remaining();
    let capture_ports = match decode_ports(decoder) {
        Ok(ports) => ports,
        Err(e) => {
            assert forall|info: DeviceInfoModel, rest: Seq<u8>|
                info_error(info) is None && info_shaped(info) implies start != #[trigger] (
            info_bytes(info) + rest) by {
                if start == info_bytes(info) + rest {
                    lemma_info_ports_at(
                        info,
                        rest,
                        head.name@,
                        head.profile_fingerprint,
                        head.geometry@,
                        at_playback,
                    );
                    lemma_ports_prefix(
                        crate::protocol::messages::port_models(playback_ports@),
                        at_capture,
                        info.playback_ports,
                        ports_bytes(info.capture_ports) + rest,
                    );
                }
            }
            return Err(e);
        },
    };
    let info = info_of_parts(
        head.name,
        head.profile_fingerprint,
        &head.geometry,
        playback_ports,
        capture_ports,
    );
    proof {
        lemma_info_layout(info@, decoder.remaining());
    }
    Ok(info)
}

/// Appends a region description.
pub fn encode_shared_info(payload: &mut Vec<u8>, info: &SharedRegionInfo)
    ensures
        final(payload)@ == old(payload)@ + shared_info_bytes(*info),
{
    put_u64(payload, info.size);
    let halves: [u32; 4] = [
        info.period_frames,
        info.playback_channels,
        info.capture_channels,
        info.slot_count,
    ];
    let words: [u64; 3] = [info.slot_stride, info.capture_offset, info.playback_offset];
    put_halves(payload, &halves);
    put_words(payload, &words);
    assert(halves@ =~= seq![
        info.period_frames,
        info.playback_channels,
        info.capture_channels,
        info.slot_count,
    ]);
    assert(words@ =~= seq![info.slot_stride, info.capture_offset, info.playback_offset]);
    assert(payload@ =~= old(payload)@ + shared_info_bytes(*info));
}

/// Reads a region description; fails when too few bytes are left.
pub fn decode_shared_info(decoder: &mut Decoder<'_>) -> (result: Result<
    SharedRegionInfo,
    ProtocolError,
>)
    requires
        old(decoder).wf(),
    ensures
        final(decoder).wf(),
        match result {
            Ok(info) => old(decoder).remaining() == shared_info_bytes(info) + final(decoder).remaining(),
            Err(e) => e == ProtocolError::MalformedPayload && old(decoder).remaining().len()
                < SHARED_INFO_BYTES,
        },
{
    let ghost start = decoder.remaining();
    let size: u64 = match decoder.u64() {
        Ok(value) => value,
        Err(e) => {
            return Err(e);
        },
    };
    proof {
        crate::protocol::wire::lemma_le_len(size as nat, 8);
    }
    let halves = match decoder.halves(4) {
        Ok(values) => values,
        Err(e) => {
            return Err(e);
        },
    };
    proof {
        crate::protocol::wire::lemma_halves_len(halves@);
    }
    let words = match decoder.words(3) {
        Ok(values) => values,
        Err(e) => {
            return Err(e);
        },
    };
    let info = SharedRegionInfo {
        size,
        period_frames: halves[0],
        playback_channels: halves[1],
        capture_channels: halves[2],
        slot_count: halves[3],
        slot_stride: words[0],
        capture_offset: words[1],
        playback_offset: words[2],
    };
    proof {
        assert(halves@ =~= seq![
            info.period_frames,
            info.playback_channels,
            info.capture_channels,
            info.slot_count,
        ]);
        assert(words@ =~= seq![info.slot_stride, info.capture_offset, info.playback_offset]);
        assert(start =~= shared_info_bytes(info) + decoder.remaining());
    }
    Ok(info)
}

fn encode_port_stats(payload: &mut Vec<u8>, port: &SharedPlaybackPortStats) -> (result: Result<
    (),
    ProtocolError,
>)
    ensures
        match result {
            Ok(_) => string_error(port@.port_id) is None && final(payload)@ == old(payload)@
                + port_stats_bytes(port@),
            Err(e) => string_error(port@.port_id) == Some(e),
        },
{
    if let Err(e) = put_string(payload, port.port_id.as_str()) {
        return Err(e);
    }
    let words: [u64; 8] = [
        port.underruns,
        port.last_underrun_sequence,
        port.last_underrun_nanos,
        port.last_sequence_lag_periods,
        port.max_sequence_lag_periods,
        port.expired_playback_periods,
        port.playback_submit_failures,
        port.playback_xruns,
    ];
    assert(words@ =~= port@.words);
    put_words(payload, &words);
    assert(payload@ =~= old(payload)@ + port_stats_bytes(port@));
    Ok(())
}

fn decode_port_stats(decoder: &mut Decoder<'_>) -> (result: Result<
    SharedPlaybackPortStats,
    ProtocolError,
>)
    requires
        old(decoder).wf(),
    ensures
        final(decoder).wf(),
        match result {
            Ok(port) => string_error(port@.port_id) is None && old(decoder).remaining()
                == port_stats_bytes(port@) + final(decoder).remaining(),
            Err(e) => e == ProtocolError::MalformedPayload && forall|
                port: SharedPlaybackPortStatsModel,
                rest: Seq<u8>,
            |
                string_error(port.port_id) is None && port_stats_shaped(port) ==> old(decoder).remaining() != #[trigger] (port_stats_bytes(port) + rest),
        },
{
    let ghost start = decoder.remaining();
    let port_id = match decoder.string() {
        Ok(id) => id,
        Err(e) => {
            assert forall|port: SharedPlaybackPortStatsModel, rest: Seq<u8>|
                string_error(port.port_id) is None implies start != #[trigger] (port_stats_bytes(
                port,
            ) + rest) by {
                assert(port_stats_bytes(port) + rest =~= crate::protocol::wire::string_bytes(
                    port.port_id,
                ) + (crate::protocol::wire::words_bytes(port.words) + rest));
            }
            return Err(e);
        },
    };
    let ghost at_words = decoder.remaining();
    let words = match decoder.words(PORT_COUNTERS) {
        Ok(words) => words,
        Err(e) => {
            assert forall|port: SharedPlaybackPortStatsModel, rest: Seq<u8>|
                string_error(port.port_id) is None && port_stats_shaped(port) implies start
                != #[trigger] (port_stats_bytes(port) + rest) by {
                let tail = crate::protocol::wire::words_bytes(port.words) + rest;
                assert(port_stats_bytes(port) + rest =~= crate::protocol::wire::string_bytes(
                    port.port_id,
                ) + tail);
                if start == port_stats_bytes(port) + rest {
                    crate::protocol::wire::lemma_string_prefix(
                        port_id@,
                        at_words,
                        port.port_id,
                        tail,
                    );
                    crate::protocol::wire::lemma_words_len(port.words);
                }
            }
            return Err(e);
        },
    };
    let port = SharedPlaybackPortStats {
        port_id,
        underruns: words[0],
        last_underrun_sequence: words[1],
        last_underrun_nanos: words[2],
        last_sequence_lag_periods: words[3],
        max_sequence_lag_periods: words[4],
        expired_playback_periods: words[5],
        playback_submit_failures: words[6],
        playback_xruns: words[7],
    };
    assert(port@.words =~= words@);
    assert(start =~= port_stats_bytes(port@) + decoder.remaining());
    Ok(port)
}

/// The words of a report.
#[verifier::rlimit(50)]
fn words_of_stats(stats: &Stats) -> (words: [u64; 51])
    ensures
        words@ == crate::protocol::messages::stats_words(*stats),
{
    let words: [u64; 51] = [
        stats.generation,
        stats.sample_position,
        stats.playback_position,
        stats.capture_position,
        stats.hw_playback_xruns,
        stats.hw_capture_xruns,
        stats.playback_delay_frames,
        stats.capture_delay_frames,
        stats.playback_delay_min_frames,
        stats.playback_delay_max_frames,
        stats.playback_ring_delay_frames,
        stats.playback_ring_delay_min_frames,
        stats.playback_ring_delay_max_frames,
        stats.playback_driver_delay_frames,
        stats.playback_driver_delay_min_frames,
        stats.playback_driver_delay_max_frames,
        stats.capture_delay_min_frames,
        stats.capture_delay_max_frames,
        stats.playback_target_overshoot_max_frames,
        stats.capture_clock_wait_max_nanos,
        stats.pro_wait_budget_min_nanos,
        stats.pro_wait_budget_max_nanos,
        stats.pro_ready_wait_max_nanos,
        stats.playback_write_max_nanos,
        stats.capture_to_playback_write_nanos,
        stats.capture_to_playback_write_min_nanos,
        stats.capture_to_playback_write_max_nanos,
        stats.duplex_pointer_phase_nanos as u64,
        stats.duplex_pointer_phase_min_nanos as u64,
        stats.duplex_pointer_phase_max_nanos as u64,
        stats.duplex_pointer_phase_samples,
        stats.linked_phase_attempts,
        stats.linked_phase_rebases,
        stats.linked_phase_score_nanos,
        (if stats.linked_phase_target_met { 1u64 } else { 0u64 }),
        stats.playback_low_watermarks,
        stats.pro_deadline_misses,
        stats.pro_client_deadline_misses,
        stats.pro_core_deadline_misses,
        stats.pro_capture_overruns,
        stats.pro_expired_capture_blocks,
        stats.pro_playback_submit_failures,
        stats.pro_realtime_failures,
        stats.pro_callback_overruns,
        stats.pro_callback_max_nanos,
        stats.pro_playback_blocks,
        stats.pro_playback_nonzero_blocks,
        stats.shared_underruns,
        stats.shared_overruns,
        stats.timeline_resets,
        stats.periods_processed,
    ];
    assert(words@ =~= crate::protocol::messages::stats_words(*stats));
    words
}

/// The report that has the given words and no ports.
#[verifier::rlimit(50)]
fn stats_of_words(words: &Vec<u64>) -> (stats: Stats)
    requires
        words@.len() == STATS_WORDS,
    ensures
        stats.shared_playback_ports@.len() == 0,
        crate::protocol::messages::stats_words(stats) == words@.update(
            TARGET_MET_WORD as int,
            crate::protocol::messages::flag_word(words@[TARGET_MET_WORD as int] != 0),
        ),
{
    let stats = Stats {
        generation: words[0],
        sample_position: words[1],
        playback_position: words[2],
        capture_position: words[3],
        hw_playback_xruns: words[4],
        hw_capture_xruns: words[5],
        playback_delay_frames: words[6],
        capture_delay_frames: words[7],
        playback_delay_min_frames: words[8],
        playback_delay_max_frames: words[9],
        playback_ring_delay_frames: words[10],
        playback_ring_delay_min_frames: words[11],
        playback_ring_delay_max_frames: words[12],
        playback_driver_delay_frames: words[13],
        playback_driver_delay_min_frames: words[14],
        playback_driver_delay_max_frames: words[15],
        capture_delay_min_frames: words[16],
        capture_delay_max_frames: words[17],
        playback_target_overshoot_max_frames: words[18],
        capture_clock_wait_max_nanos: words[19],
        pro_wait_budget_min_nanos: words[20],
        pro_wait_budget_max_nanos: words[21],
        pro_ready_wait_max_nanos: words[22],
        playback_write_max_nanos: words[23],
        capture_to_playback_write_nanos: words[24],
        capture_to_playback_write_min_nanos: words[25],
        capture_to_playback_write_max_nanos: words[26],
        duplex_pointer_phase_nanos: words[27] as i64,
        duplex_pointer_phase_min_nanos: words[28] as i64,
        duplex_pointer_phase_max_nanos: words[29] as i64,
        duplex_pointer_phase_samples: words[30],
        linked_phase_attempts: words[31],
        linked_phase_rebases: words[32],
        linked_phase_score_nanos: words[33],
        linked_phase_target_met: words[34] != 0,
        playback_low_watermarks: words[35],
        pro_deadline_misses: words[36],
        pro_client_deadline_misses: words[37],
        pro_core_deadline_misses: words[38],
        pro_capture_overruns: words[39],
        pro_expired_capture_blocks: words[40],
        pro_playback_submit_failures: words[41],
        pro_realtime_failures: words[42],
        pro_callback_overruns: words[43],
        pro_callback_max_nanos: words[44],
        pro_playback_blocks: words[45],
        pro_playback_nonzero_blocks: words[46],
        shared_underruns: words[47],
        shared_overruns: words[48],
        timeline_resets: words[49],
        periods_processed: words[50],
        shared_playback_ports: Vec::new(),
    };
    proof {
        lemma_word_signed(words@[27]);
        lemma_word_signed(words@[28]);
        lemma_word_signed(words@[29]);
        assert(crate::protocol::messages::stats_words(stats) =~= words@.update(
            TARGET_MET_WORD as int,
            crate::protocol::messages::flag_word(words@[TARGET_MET_WORD as int] != 0),
        ));
    }
    stats
}

proof fn lemma_word_signed(word: u64)
    ensures
        (word as i64) as u64 == word,
{
    assert((word as i64) as u64 == word) by (bit_vector);
}

/// Appends a statistics report.
pub fn encode_stats(payload: &mut Vec<u8>, stats: &Stats) -> (result: Result<(), ProtocolError>)
    ensures
        match result {
            Ok(_) => stats_error(stats@) is None && final(payload)@ == old(payload)@ + stats_bytes(
                stats@,
            ),
            Err(e) => stats_error(stats@) == Some(e),
        },
{
    let words = words_of_stats(stats);
    put_words(payload, &words);
    let ports = stats.shared_playback_ports.as_slice();
    if ports.len() > MAX_ITEMS {
        return Err(ProtocolError::TooManyItems);
    }
    put_u16(payload, ports.len() as u16);
    let ghost models = stats@.ports;
    let ghost counted = payload@;
    let mut i: usize = 0;
    assert(payload@ =~= counted + port_stats_run_bytes(models.take(0)));
    while i < ports.len()
        invariant
            i <= ports.len() <= MAX_ITEMS,
            models == crate::protocol::messages::port_stats_models(ports@),
            payload@ == counted + port_stats_run_bytes(models.take(i as int)),
            port_stats_run_error(models.take(i as int)) is None,
            models == stats@.ports,
        decreases ports.len() - i,
    {
        proof {
            assert(models.take(i + 1).drop_last() =~= models.take(i as int));
        }
        if let Err(e) = encode_port_stats(payload, &ports[i]) {
            proof {
                lemma_stats_run_error_extends(models, i + 1);
            }
            return Err(e);
        }
        assert(payload@ =~= counted + port_stats_run_bytes(models.take(i + 1)));
        i = i + 1;
    }
    assert(models.take(i as int) =~= models);
    assert(payload@ =~= old(payload)@ + stats_bytes(stats@));
    Ok(())
}

/// Reads a statistics report. It fails exactly when the input does not begin with one.
pub fn decode_stats(decoder: &mut Decoder<'_>) -> (result: Result<Stats, ProtocolError>)
    requires
        old(decoder).wf(),
    ensures
        final(decoder).wf(),
        match result {
            Ok(stats) => {
                &&& stats_error(stats@) is None
                &&& stats_shaped(stats@)
                &&& exists|word: u64|
                    (word != 0) == stats.linked_phase_target_met && old(decoder).remaining()
                        == #[trigger] stats_bytes(with_flag_word(stats@, word)) + final(decoder).remaining()
            },
            Err(e) => e == ProtocolError::MalformedPayload && forall|
                stats: StatsModel,
                word: u64,
                rest: Seq<u8>,
            |
                stats_error(stats) is None && stats_shaped(stats) ==> old(decoder).remaining()
                    != #[trigger] (stats_bytes(with_flag_word(stats, word)) + rest),
        },
{
    proof {
        crate::protocol::wire::lemma_byte_spans();
    }
    let ghost start = decoder.remaining();
    let words = match decoder.words(STATS_WORDS) {
        Ok(words) => words,
        Err(e) => {
            assert forall|stats: StatsModel, word: u64, rest: Seq<u8>|
                stats_error(stats) is None && stats_shaped(stats) implies start != #[trigger] (
            stats_bytes(with_flag_word(stats, word)) + rest) by {
                crate::protocol::wire::lemma_words_len(with_flag_word(stats, word).words);
            }
            return Err(e);
        },
    };
    let ghost at_count = decoder.remaining();
    assert forall|stats: StatsModel, word: u64, rest: Seq<u8>|
        stats_error(stats) is None && stats_shaped(stats) && start == #[trigger] (stats_bytes(
            with_flag_word(stats, word),
        ) + rest) implies at_count == crate::protocol::wire::le_bytes(stats.ports.len(), 2) + (
    port_stats_run_bytes(stats.ports) + rest) by {
        let flagged = with_flag_word(stats, word);
        let tail = crate::protocol::wire::le_bytes(stats.ports.len(), 2) + (port_stats_run_bytes(
            stats.ports,
        ) + rest);
        assert(stats_bytes(flagged) + rest =~= crate::protocol::wire::words_bytes(flagged.words)
            + tail);
        crate::protocol::wire::lemma_words_prefix(words@, at_count, flagged.words, tail);
    }
    let mut stats = stats_of_words(&words);
    let count: u16 = match decoder.u16() {
        Ok(count) => count,
        Err(e) => {
            assert forall|stats: StatsModel, word: u64, rest: Seq<u8>|
                stats_error(stats) is None && stats_shaped(stats) implies start != #[trigger] (
            stats_bytes(with_flag_word(stats, word)) + rest) by {
                crate::protocol::wire::lemma_le_len(stats.ports.len(), 2);
            }
            return Err(e);
        },
    };
    let ghost counted = decoder.remaining();
    let mut ports: Vec<SharedPlaybackPortStats> = Vec::new();
    let ghost mut models = Seq::<SharedPlaybackPortStatsModel>::empty();
    assert(counted =~= port_stats_run_bytes(models) + decoder.remaining());
    while ports.len() < count as usize
        invariant
            decoder.wf(),
            start == old(decoder).remaining(),
            at_count == crate::protocol::wire::le_bytes(count as nat, 2) + counted,
            forall|stats: StatsModel, word: u64, rest: Seq<u8>|
                stats_error(stats) is None && stats_shaped(stats) && start == #[trigger] (
                stats_bytes(with_flag_word(stats, word)) + rest) ==> at_count
                    == crate::protocol::wire::le_bytes(stats.ports.len(), 2) + (
                port_stats_run_bytes(stats.ports) + rest),
            ports@.len() <= count,
            models == crate::protocol::messages::port_stats_models(ports@),
            counted == port_stats_run_bytes(models) + decoder.remaining(),
            port_stats_run_error(models) is None,
            all_shaped(models),
            crate::protocol::wire::byte_span(2) == 0x1_0000,
        decreases count - ports.len(),
    {
        let ghost here = decoder.remaining();
        match decode_port_stats(decoder) {
            Ok(port) => {
                ports.push(port);
                proof {
                    let longer = models.push(port@);
                    assert(longer.drop_last() =~= models);
                    assert(longer =~= crate::protocol::messages::port_stats_models(ports@));
                    assert(counted =~= port_stats_run_bytes(longer) + decoder.remaining());
                    assert(port_stats_shaped(port@));
                    assert(all_shaped(longer));
                    models = longer;
                }
            },
            Err(e) => {
                assert forall|all: StatsModel, word: u64, rest: Seq<u8>|
                    stats_error(all) is None && stats_shaped(all) implies start != #[trigger] (
                stats_bytes(with_flag_word(all, word)) + rest) by {
                    if start == stats_bytes(with_flag_word(all, word)) + rest {
                        let k = models.len() as int;
                        crate::protocol::wire::lemma_le_prefix(
                            count as nat,
                            counted,
                            all.ports.len(),
                            port_stats_run_bytes(all.ports) + rest,
                            2,
                        );
                        lemma_stats_run_splits(all.ports, k);
                        lemma_stats_run_error_prefix(all.ports, k);
                        let tail = choose|tail: Seq<u8>|
                            port_stats_run_bytes(all.ports) == #[trigger] (port_stats_run_bytes(
                                all.ports.take(k),
                            ) + (port_stats_bytes(all.ports[k]) + tail));
                        assert(counted =~= port_stats_run_bytes(all.ports.take(k)) + (
                        port_stats_bytes(all.ports[k]) + (tail + rest)));
                        assert(all_shaped(all.ports.take(k)));
                        assert(port_stats_shaped(all.ports[k]));
                        lemma_stats_run_prefix(
                            models,
                            here,
                            all.ports.take(k),
                            port_stats_bytes(all.ports[k]) + (tail + rest),
                        );
                    }
                }
                return Err(e);
            },
        }
    }
    let ghost scalar = stats;
    stats.shared_playback_ports = ports;
    proof {
        let word = words@[TARGET_MET_WORD as int];
        assert(crate::protocol::messages::stats_words(stats)
            == crate::protocol::messages::stats_words(scalar));
        assert(stats@.words[TARGET_MET_WORD as int] == crate::protocol::messages::flag_word(
            stats.linked_phase_target_met,
        ));
        assert(with_flag_word(stats@, word).words =~= words@);
        assert(start =~= stats_bytes(with_flag_word(stats@, word)) + decoder.remaining());
    }
    Ok(stats)
}

/// A region is described in 48 bytes: its size, then frames, playback channels, capture channels and
/// slots in four bytes each, then the slot distance and where the capture and playback rings begin.
pub proof fn a_region_is_described_in_order(info: SharedRegionInfo)
    ensures
        ({
            let bytes = shared_info_bytes(info);
            &&& bytes.len() == 48
            &&& crate::protocol::wire::le_value(bytes.subrange(0, 8)) == info.size
            &&& crate::protocol::wire::le_value(bytes.subrange(8, 12)) == info.period_frames
            &&& crate::protocol::wire::le_value(bytes.subrange(12, 16)) == info.playback_channels
            &&& crate::protocol::wire::le_value(bytes.subrange(16, 20)) == info.capture_channels
            &&& crate::protocol::wire::le_value(bytes.subrange(20, 24)) == info.slot_count
            &&& crate::protocol::wire::le_value(bytes.subrange(24, 32)) == info.slot_stride
            &&& crate::protocol::wire::le_value(bytes.subrange(32, 40)) == info.capture_offset
            &&& crate::protocol::wire::le_value(bytes.subrange(40, 48)) == info.playback_offset
        }),
{
    let bytes = shared_info_bytes(info);
    let halves = seq![
        info.period_frames,
        info.playback_channels,
        info.capture_channels,
        info.slot_count,
    ];
    let words = seq![info.slot_stride, info.capture_offset, info.playback_offset];
    let h = crate::protocol::wire::halves_bytes(halves);
    let w = crate::protocol::wire::words_bytes(words);
    lemma_shared_info_len(info);
    crate::protocol::wire::lemma_byte_spans();
    crate::protocol::wire::lemma_le_len(info.size as nat, 8);
    crate::protocol::wire::lemma_le_round_trip(info.size as nat, 8);
    assert(bytes.subrange(0, 8) =~= crate::protocol::wire::le_bytes(info.size as nat, 8));
    crate::protocol::wire::halves_stand_one_after_another(halves, 0);
    crate::protocol::wire::halves_stand_one_after_another(halves, 1);
    crate::protocol::wire::halves_stand_one_after_another(halves, 2);
    crate::protocol::wire::halves_stand_one_after_another(halves, 3);
    crate::protocol::wire::words_stand_one_after_another(words, 0);
    crate::protocol::wire::words_stand_one_after_another(words, 1);
    crate::protocol::wire::words_stand_one_after_another(words, 2);
    crate::protocol::wire::lemma_le_round_trip(info.period_frames as nat, 4);
    crate::protocol::wire::lemma_le_round_trip(info.playback_channels as nat, 4);
    crate::protocol::wire::lemma_le_round_trip(info.capture_channels as nat, 4);
    crate::protocol::wire::lemma_le_round_trip(info.slot_count as nat, 4);
    crate::protocol::wire::lemma_le_round_trip(info.slot_stride as nat, 8);
    crate::protocol::wire::lemma_le_round_trip(info.capture_offset as nat, 8);
    crate::protocol::wire::lemma_le_round_trip(info.playback_offset as nat, 8);
    assert(bytes.subrange(8, 12) =~= h.subrange(0, 4));
    assert(bytes.subrange(12, 16) =~= h.subrange(4, 8));
    assert(bytes.subrange(16, 20) =~= h.subrange(8, 12));
    assert(bytes.subrange(20, 24) =~= h.subrange(12, 16));
    assert(bytes.subrange(24, 32) =~= w.subrange(0, 8));
    assert(bytes.subrange(32, 40) =~= w.subrange(8, 16));
    assert(bytes.subrange(40, 48) =~= w.subrange(16, 24));
}

/// A report begins with its words, eight bytes each, and goes on with the number of its ports.
pub proof fn a_report_begins_with_its_words(stats: StatsModel, i: int)
    requires
        stats_shaped(stats),
        0 <= i < 51,
    ensures
        stats_bytes(stats).len() >= 410,
        crate::protocol::wire::le_value(stats_bytes(stats).subrange(8 * i, 8 * i + 8))
            == stats.words[i],
        stats_bytes(stats)[408] == stats.ports.len() % 256,
        stats_bytes(stats)[409] == stats.ports.len() / 256 % 256,
        stats_bytes(stats).skip(410) == port_stats_run_bytes(stats.ports),
        stats.ports.len() > 65535 ==> stats_error(stats) == Some(ProtocolError::TooManyItems),
{
    let bytes = stats_bytes(stats);
    let w = crate::protocol::wire::words_bytes(stats.words);
    crate::protocol::wire::lemma_byte_spans();
    crate::protocol::wire::words_stand_one_after_another(stats.words, i);
    crate::protocol::wire::lemma_le_round_trip(stats.words[i] as nat, 8);
    crate::protocol::wire::numbers_are_little_endian(stats.ports.len());
    assert(bytes.subrange(8 * i, 8 * i + 8) =~= w.subrange(8 * i, 8 * i + 8));
    assert(bytes.skip(410) =~= port_stats_run_bytes(stats.ports));
}

/// The counters of a port are its id and its eight words.
pub proof fn port_counters_follow_the_id(port: SharedPlaybackPortStatsModel, i: int)
    requires
        port_stats_shaped(port),
        0 <= i < 8,
    ensures
        ({
            let bytes = port_stats_bytes(port);
            let front = 2 + encode_utf8(port.port_id).len() as int;
            &&& bytes.len() == front + 64
            &&& bytes.subrange(2, front) == encode_utf8(port.port_id)
            &&& crate::protocol::wire::le_value(
                bytes.subrange(front + 8 * i, front + 8 * i + 8),
            ) == port.words[i]
        }),
{
    let bytes = port_stats_bytes(port);
    let front = 2 + encode_utf8(port.port_id).len() as int;
    let w = crate::protocol::wire::words_bytes(port.words);
    crate::protocol::wire::lemma_byte_spans();
    crate::protocol::wire::a_text_follows_its_length(port.port_id);
    crate::protocol::wire::words_stand_one_after_another(port.words, i);
    crate::protocol::wire::lemma_le_round_trip(port.words[i] as nat, 8);
    assert(bytes.subrange(2, front) =~= crate::protocol::wire::string_bytes(
        port.port_id,
    ).skip(2));
    assert(bytes.subrange(front + 8 * i, front + 8 * i + 8) =~= w.subrange(8 * i, 8 * i + 8));
}

/// A description is the name, the fingerprint, eleven fields of four bytes, and then the playback
/// ports before the capture ports.
pub proof fn a_description_is_written_in_order(info: DeviceInfoModel, i: int)
    requires
        info_shaped(info),
        0 <= i < 11,
    ensures
        ({
            let bytes = info_bytes(info);
            let front = 2 + encode_utf8(info.name).len() as int;
            &&& bytes.len() >= front + 52
            &&& bytes.subrange(2, front) == encode_utf8(info.name)
            &&& crate::protocol::wire::le_value(bytes.subrange(front, front + 8))
                == info.profile_fingerprint
            &&& crate::protocol::wire::le_value(
                bytes.subrange(front + 8 + 4 * i, front + 12 + 4 * i),
            ) == info.geometry[i]
            &&& bytes.skip(front + 52) == ports_bytes(info.playback_ports) + ports_bytes(
                info.capture_ports,
            )
        }),
{
    let bytes = info_bytes(info);
    let front = 2 + encode_utf8(info.name).len() as int;
    let g = crate::protocol::wire::halves_bytes(info.geometry);
    crate::protocol::wire::lemma_byte_spans();
    crate::protocol::wire::a_text_follows_its_length(info.name);
    crate::protocol::wire::halves_stand_one_after_another(info.geometry, i);
    crate::protocol::wire::lemma_le_round_trip(info.geometry[i] as nat, 4);
    crate::protocol::wire::lemma_le_len(info.profile_fingerprint as nat, 8);
    crate::protocol::wire::lemma_le_round_trip(info.profile_fingerprint as nat, 8);
    assert(bytes.subrange(2, front) =~= crate::protocol::wire::string_bytes(
        info.name,
    ).skip(2));
    assert(bytes.subrange(front, front + 8) =~= crate::protocol::wire::le_bytes(
        info.profile_fingerprint as nat,
        8,
    ));
    assert(bytes.subrange(front + 8 + 4 * i, front + 12 + 4 * i) =~= g.subrange(
        4 * i,
        4 * i + 4,
    ));
    assert(bytes.skip(front + 52) =~= ports_bytes(info.playback_ports) + ports_bytes(
        info.capture_ports,
    ));
}

/// A port is its id, its name, the number of its channels in two bytes and each channel in four.
pub proof fn a_port_is_written_in_order(port: PortInfoModel, i: int)
    requires
        0 <= i < port.channels.len(),
    ensures
        ({
            let bytes = port_bytes(port);
            let id = 2 + encode_utf8(port.id).len() as int;
            let name = id + 2 + encode_utf8(port.name).len();
            &&& bytes.len() == name + 2 + 4 * port.channels.len()
            &&& bytes.subrange(2, id) == encode_utf8(port.id)
            &&& bytes.subrange(id + 2, name) == encode_utf8(port.name)
            &&& bytes[name] == port.channels.len() % 256
            &&& bytes[name + 1] == port.channels.len() / 256 % 256
            &&& crate::protocol::wire::le_value(
                bytes.subrange(name + 2 + 4 * i, name + 6 + 4 * i),
            ) == port.channels[i]
        }),
        port.channels.len() > 65535 && string_error(port.id) is None && string_error(port.name)
            is None ==> port_error(port) == Some(ProtocolError::TooManyItems),
{
    let bytes = port_bytes(port);
    let id = 2 + encode_utf8(port.id).len() as int;
    let name = id + 2 + encode_utf8(port.name).len();
    let c = crate::protocol::wire::halves_bytes(port.channels);
    crate::protocol::wire::lemma_byte_spans();
    crate::protocol::wire::a_text_follows_its_length(port.id);
    crate::protocol::wire::a_text_follows_its_length(port.name);
    crate::protocol::wire::numbers_are_little_endian(port.channels.len());
    crate::protocol::wire::halves_stand_one_after_another(port.channels, i);
    crate::protocol::wire::lemma_le_round_trip(port.channels[i] as nat, 4);
    assert(bytes.subrange(2, id) =~= crate::protocol::wire::string_bytes(port.id).skip(2));
    assert(bytes.subrange(id + 2, name) =~= crate::protocol::wire::string_bytes(
        port.name,
    ).skip(2));
    assert(bytes.subrange(name + 2 + 4 * i, name + 6 + 4 * i) =~= c.subrange(4 * i, 4 * i + 4));
}

/// A list of ports is their number in two bytes and then the ports in order: a longer list goes on
/// where a shorter one ends.
pub proof fn ports_follow_their_number_in_order(
    ports: Seq<PortInfoModel>,
    more: Seq<PortInfoModel>,
    port: PortInfoModel,
)
    ensures
        ports_bytes(ports)[0] == ports.len() % 256,
        ports_bytes(ports)[1] == ports.len() / 256 % 256,
        ports_bytes(ports).skip(2) == port_run_bytes(ports),
        port_run_bytes(ports + more) == port_run_bytes(ports) + port_run_bytes(more),
        port_run_bytes(seq![port]) == port_bytes(port),
    decreases more.len(),
{
    crate::protocol::wire::numbers_are_little_endian(ports.len());
    assert(ports_bytes(ports).skip(2) =~= port_run_bytes(ports));
    reveal_with_fuel(port_run_bytes, 2);
    assert(seq![port].drop_last() =~= Seq::<PortInfoModel>::empty());
    assert(port_run_bytes(seq![port]) =~= port_bytes(port));
    if more.len() == 0 {
        assert(ports + more =~= ports);
        assert(port_run_bytes(ports + more) =~= port_run_bytes(ports) + port_run_bytes(more));
    } else {
        ports_follow_their_number_in_order(ports, more.drop_last(), port);
        assert((ports + more).drop_last() =~= ports + more.drop_last());
        assert(port_run_bytes(ports + more) =~= port_run_bytes(ports) + port_run_bytes(more));
    }
}

/// The ports of a report are written in order: a longer list goes on where a shorter one ends.
pub proof fn port_counters_are_written_in_order(
    ports: Seq<SharedPlaybackPortStatsModel>,
    more: Seq<SharedPlaybackPortStatsModel>,
    port: SharedPlaybackPortStatsModel,
)
    ensures
        port_stats_run_bytes(ports + more) == port_stats_run_bytes(ports) + port_stats_run_bytes(
            more,
        ),
        port_stats_run_bytes(seq![port]) == port_stats_bytes(port),
    decreases more.len(),
{
    reveal_with_fuel(port_stats_run_bytes, 2);
    assert(seq![port].drop_last() =~= Seq::<SharedPlaybackPortStatsModel>::empty());
    assert(port_stats_run_bytes(seq![port]) =~= port_stats_bytes(port));
    if more.len() == 0 {
        assert(ports + more =~= ports);
    } else {
        port_counters_are_written_in_order(ports, more.drop_last(), port);
        assert((ports + more).drop_last() =~= ports + more.drop_last());
    }
    assert(port_stats_run_bytes(ports + more) =~= port_stats_run_bytes(ports)
        + port_stats_run_bytes(more));
}

} // verus!
