//! Primitive wire values: little-endian integers, strings and runs of integers.
//!
//! Every value is described by the bytes it is written as. A reader succeeds on exactly those
//! inputs that begin with such bytes, and the lemmas of this module show that the value and the
//! rest of the input are then determined.
use vstd::prelude::*;
use vstd::utf8::*;
use crate::protocol::messages::ProtocolError;

verus! {

broadcast use {vstd::seq_lib::group_seq_properties, vstd::utf8::group_utf8_lib};

/// Number of values that `width` bytes can tell apart.
pub open spec fn byte_span(width: nat) -> nat
    decreases width,
{
    if width == 0 {
        1
    } else {
        256 * byte_span((width - 1) as nat)
    }
}

/// `value` as `width` bytes, least significant first.
pub open spec fn le_bytes(value: nat, width: nat) -> Seq<u8>
    decreases width,
{
    if width == 0 {
        Seq::empty()
    } else {
        seq![(value % 256) as u8] + le_bytes(value / 256, (width - 1) as nat)
    }
}

/// The number that `bytes` spell, least significant first.
pub open spec fn le_value(bytes: Seq<u8>) -> nat
    decreases bytes.len(),
{
    if bytes.len() == 0 {
        0
    } else {
        bytes[0] as nat + 256 * le_value(bytes.skip(1))
    }
}

/// Longest string, in bytes, that the two-byte length can announce.
pub const MAX_STRING_BYTES: usize = 65535;

/// Largest number of items that a two-byte count can announce.
pub const MAX_ITEMS: usize = 65535;

/// A string is written as its length in bytes followed by its UTF-8 bytes.
pub open spec fn string_bytes(text: Seq<char>) -> Seq<u8> {
    le_bytes(encode_utf8(text).len(), 2) + encode_utf8(text)
}

/// The length of `text` fits the two-byte length.
pub open spec fn string_fits(text: Seq<char>) -> bool {
    encode_utf8(text).len() <= MAX_STRING_BYTES
}

/// A run of 64-bit words, written one after another.
pub open spec fn words_bytes(words: Seq<u64>) -> Seq<u8>
    decreases words.len(),
{
    if words.len() == 0 {
        Seq::empty()
    } else {
        words_bytes(words.drop_last()) + le_bytes(words.last() as nat, 8)
    }
}

/// A run of 32-bit words, written one after another.
pub open spec fn halves_bytes(words: Seq<u32>) -> Seq<u8>
    decreases words.len(),
{
    if words.len() == 0 {
        Seq::empty()
    } else {
        halves_bytes(words.drop_last()) + le_bytes(words.last() as nat, 4)
    }
}

pub proof fn lemma_byte_spans()
    ensures
        byte_span(1) == 0x100,
        byte_span(2) == 0x1_0000,
        byte_span(4) == 0x1_0000_0000,
        byte_span(8) == 0x1_0000_0000_0000_0000,
{
    reveal_with_fuel(byte_span, 9);
}

proof fn lemma_byte_span_grows(a: nat, b: nat)
    requires
        a <= b,
    ensures
        1 <= byte_span(a) <= byte_span(b),
    decreases b,
{
    if a < b {
        lemma_byte_span_grows(a, (b - 1) as nat);
    } else if b > 0 {
        lemma_byte_span_grows((a - 1) as nat, (b - 1) as nat);
    }
}

pub proof fn lemma_le_len(value: nat, width: nat)
    ensures
        le_bytes(value, width).len() == width,
    decreases width,
{
    if width > 0 {
        lemma_le_len(value / 256, (width - 1) as nat);
    }
}

/// Reading back what was written gives the value, as long as it fits the width.
pub proof fn lemma_le_round_trip(value: nat, width: nat)
    requires
        value < byte_span(width),
    ensures
        le_value(le_bytes(value, width)) == value,
    decreases width,
{
    if width > 0 {
        lemma_le_round_trip(value / 256, (width - 1) as nat);
        assert(le_bytes(value, width).skip(1) =~= le_bytes(value / 256, (width - 1) as nat));
    }
}

/// Any bytes are what the number they spell is written as.
pub proof fn lemma_le_covers(bytes: Seq<u8>)
    ensures
        le_bytes(le_value(bytes), bytes.len()) == bytes,
        le_value(bytes) < byte_span(bytes.len()),
    decreases bytes.len(),
{
    if bytes.len() > 0 {
        lemma_le_covers(bytes.skip(1));
        let rest = le_value(bytes.skip(1));
        assert(le_value(bytes) % 256 == bytes[0] as nat);
        assert(le_value(bytes) / 256 == rest);
        assert(le_bytes(le_value(bytes), bytes.len()) =~= bytes);
    }
}

/// Two concatenations whose first parts have equal length agree part by part.
pub proof fn lemma_cut(a: Seq<u8>, x: Seq<u8>, b: Seq<u8>, y: Seq<u8>)
    requires
        a + x == b + y,
        a.len() == b.len(),
    ensures
        a == b,
        x == y,
{
    assert(a =~= (a + x).take(a.len() as int));
    assert(b =~= (b + y).take(a.len() as int));
    assert(x =~= (a + x).skip(a.len() as int));
    assert(y =~= (b + y).skip(a.len() as int));
}

pub proof fn lemma_le_prefix(a: nat, x: Seq<u8>, b: nat, y: Seq<u8>, width: nat)
    requires
        le_bytes(a, width) + x == le_bytes(b, width) + y,
        a < byte_span(width),
        b < byte_span(width),
    ensures
        a == b,
        x == y,
{
    lemma_le_len(a, width);
    lemma_le_len(b, width);
    lemma_cut(le_bytes(a, width), x, le_bytes(b, width), y);
    lemma_le_round_trip(a, width);
    lemma_le_round_trip(b, width);
}

pub proof fn lemma_string_prefix(a: Seq<char>, x: Seq<u8>, b: Seq<char>, y: Seq<u8>)
    requires
        string_bytes(a) + x == string_bytes(b) + y,
        string_fits(a),
        string_fits(b),
    ensures
        a == b,
        x == y,
{
    lemma_byte_spans();
    assert(string_bytes(a) + x =~= le_bytes(encode_utf8(a).len(), 2) + (encode_utf8(a) + x));
    assert(string_bytes(b) + y =~= le_bytes(encode_utf8(b).len(), 2) + (encode_utf8(b) + y));
    lemma_le_prefix(
        encode_utf8(a).len(),
        encode_utf8(a) + x,
        encode_utf8(b).len(),
        encode_utf8(b) + y,
        2,
    );
    lemma_cut(encode_utf8(a), x, encode_utf8(b), y);
    encode_utf8_decode_utf8(a);
    encode_utf8_decode_utf8(b);
}

pub proof fn lemma_words_len(words: Seq<u64>)
    ensures
        words_bytes(words).len() == 8 * words.len(),
    decreases words.len(),
{
    if words.len() > 0 {
        lemma_words_len(words.drop_last());
        lemma_le_len(words.last() as nat, 8);
    }
}

pub proof fn lemma_halves_len(words: Seq<u32>)
    ensures
        halves_bytes(words).len() == 4 * words.len(),
    decreases words.len(),
{
    if words.len() > 0 {
        lemma_halves_len(words.drop_last());
        lemma_le_len(words.last() as nat, 4);
    }
}

pub proof fn lemma_words_prefix(a: Seq<u64>, x: Seq<u8>, b: Seq<u64>, y: Seq<u8>)
    requires
        words_bytes(a) + x == words_bytes(b) + y,
        a.len() == b.len(),
    ensures
        a == b,
        x == y,
    decreases a.len(),
{
    if a.len() > 0 {
        let la = le_bytes(a.last() as nat, 8);
        let lb = le_bytes(b.last() as nat, 8);
        assert(words_bytes(a) + x =~= words_bytes(a.drop_last()) + (la + x));
        assert(words_bytes(b) + y =~= words_bytes(b.drop_last()) + (lb + y));
        lemma_words_prefix(a.drop_last(), la + x, b.drop_last(), lb + y);
        lemma_byte_spans();
        lemma_le_prefix(a.last() as nat, x, b.last() as nat, y, 8);
        assert(a =~= a.drop_last().push(a.last()));
        assert(b =~= b.drop_last().push(b.last()));
    } else {
        assert(words_bytes(a) + x =~= x);
        assert(words_bytes(b) + y =~= y);
        assert(a =~= b);
    }
}

pub proof fn lemma_halves_prefix(a: Seq<u32>, x: Seq<u8>, b: Seq<u32>, y: Seq<u8>)
    requires
        halves_bytes(a) + x == halves_bytes(b) + y,
        a.len() == b.len(),
    ensures
        a == b,
        x == y,
    decreases a.len(),
{
    if a.len() > 0 {
        let la = le_bytes(a.last() as nat, 4);
        let lb = le_bytes(b.last() as nat, 4);
        assert(halves_bytes(a) + x =~= halves_bytes(a.drop_last()) + (la + x));
        assert(halves_bytes(b) + y =~= halves_bytes(b.drop_last()) + (lb + y));
        lemma_halves_prefix(a.drop_last(), la + x, b.drop_last(), lb + y);
        lemma_byte_spans();
        lemma_le_prefix(a.last() as nat, x, b.last() as nat, y, 4);
        assert(a =~= a.drop_last().push(a.last()));
        assert(b =~= b.drop_last().push(b.last()));
    } else {
        assert(halves_bytes(a) + x =~= x);
        assert(halves_bytes(b) + y =~= y);
        assert(a =~= b);
    }
}

/// Appends `value` as `width` little-endian bytes.
fn put_le(payload: &mut Vec<u8>, value: u64, width: usize)
    requires
        width <= 8,
    ensures
        final(payload)@ == old(payload)@ + le_bytes(value as nat, width as nat),
{
    let mut left: u64 = value;
    let mut done: usize = 0;
    while done < width
        invariant
            done <= width,
            payload@ + le_bytes(left as nat, (width - done) as nat) == old(payload)@ + le_bytes(
                value as nat,
                width as nat,
            ),
        decreases width - done,
    {
        let ghost before = payload@;
        let ghost rest = le_bytes((left / 256) as nat, (width - done - 1) as nat);
        payload.push((left % 256) as u8);
        assert(payload@ + rest =~= before + le_bytes(left as nat, (width - done) as nat));
        left = left / 256;
        done = done + 1;
    }
    assert(payload@ + le_bytes(left as nat, 0) =~= payload@);
}

pub fn put_u8(payload: &mut Vec<u8>, value: u8)
    ensures
        final(payload)@ == old(payload)@ + le_bytes(value as nat, 1),
{
    put_le(payload, value as u64, 1);
}

pub fn put_u16(payload: &mut Vec<u8>, value: u16)
    ensures
        final(payload)@ == old(payload)@ + le_bytes(value as nat, 2),
{
    put_le(payload, value as u64, 2);
}

pub fn put_u32(payload: &mut Vec<u8>, value: u32)
    ensures
        final(payload)@ == old(payload)@ + le_bytes(value as nat, 4),
{
    put_le(payload, value as u64, 4);
}

pub fn put_u64(payload: &mut Vec<u8>, value: u64)
    ensures
        final(payload)@ == old(payload)@ + le_bytes(value as nat, 8),
{
    put_le(payload, value, 8);
}

/// Appends `bytes` unchanged.
pub fn put_bytes(payload: &mut Vec<u8>, bytes: &[u8])
    ensures
        final(payload)@ == old(payload)@ + bytes@,
{
    payload.extend_from_slice(bytes);
    assert(payload@ =~= old(payload)@ + bytes@);
}

/// Appends a length-prefixed string, unless its length does not fit.
pub fn put_string(payload: &mut Vec<u8>, value: &str) -> (result: Result<(), ProtocolError>)
    ensures
        result is Ok <==> string_fits(value@),
        result is Ok ==> final(payload)@ == old(payload)@ + string_bytes(value@),
        result matches Err(e) ==> {
            &&& e == ProtocolError::StringTooLong(encode_utf8(value@).len() as usize)
            &&& final(payload)@ == old(payload)@
        },
{
    let bytes = value.as_bytes();
    let length: usize = bytes.len();
    if length > MAX_STRING_BYTES {
        return Err(ProtocolError::StringTooLong(length));
    }
    put_u16(payload, length as u16);
    put_bytes(payload, bytes);
    assert(payload@ =~= old(payload)@ + string_bytes(value@));
    Ok(())
}

/// Appends a run of 64-bit words.
pub fn put_words(payload: &mut Vec<u8>, words: &[u64])
    ensures
        final(payload)@ == old(payload)@ + words_bytes(words@),
{
    let mut i: usize = 0;
    assert(payload@ =~= old(payload)@ + words_bytes(words@.take(0)));
    while i < words.len()
        invariant
            i <= words.len(),
            payload@ == old(payload)@ + words_bytes(words@.take(i as int)),
        decreases words.len() - i,
    {
        put_u64(payload, words[i]);
        proof {
            let next = words@.take(i + 1);
            assert(next.drop_last() =~= words@.take(i as int));
            assert(payload@ =~= old(payload)@ + words_bytes(next));
        }
        i = i + 1;
    }
    assert(words@.take(i as int) =~= words@);
}

/// Appends a run of 32-bit words.
pub fn put_halves(payload: &mut Vec<u8>, words: &[u32])
    ensures
        final(payload)@ == old(payload)@ + halves_bytes(words@),
{
    let mut i: usize = 0;
    assert(payload@ =~= old(payload)@ + halves_bytes(words@.take(0)));
    while i < words.len()
        invariant
            i <= words.len(),
            payload@ == old(payload)@ + halves_bytes(words@.take(i as int)),
        decreases words.len() - i,
    {
        put_u32(payload, words[i]);
        proof {
            let next = words@.take(i + 1);
            assert(next.drop_last() =~= words@.take(i as int));
            assert(payload@ =~= old(payload)@ + halves_bytes(next));
        }
        i = i + 1;
    }
    assert(words@.take(i as int) =~= words@);
}

/// Turns bytes into a string, by `String::from_utf8`: the result is the text that the bytes
/// encode, and there is none exactly when the bytes are not valid UTF-8.
#[verifier::external_body]
fn string_from_utf8(bytes: Vec<u8>) -> (text: Option<String>)
    ensures
        match text {
            Some(s) => valid_utf8(bytes@) && s@ == decode_utf8(bytes@),
            None => !valid_utf8(bytes@),
        },
{
    String::from_utf8(bytes).ok()
}

/// Reads wire values from the front of a byte slice.
pub struct Decoder<'a> {
    bytes: &'a [u8],
    position: usize,
}

impl<'a> Decoder<'a> {
    pub closed spec fn wf(&self) -> bool {
        self.position <= self.bytes@.len()
    }

    /// The bytes that have not been read yet.
    pub closed spec fn remaining(&self) -> Seq<u8> {
        self.bytes@.skip(self.position as int)
    }

    pub fn new(bytes: &'a [u8]) -> (decoder: Self)
        ensures
            decoder.wf(),
            decoder.remaining() == bytes@,
    {
        let decoder = Decoder { bytes, position: 0 };
        assert(decoder.remaining() =~= bytes@);
        decoder
    }

    /// Reads `width` little-endian bytes; fails when fewer are left.
    fn take_le(&mut self, width: usize) -> (result: Result<u64, ProtocolError>)
        requires
            old(self).wf(),
            width <= 8,
        ensures
            final(self).wf(),
            match result {
                Ok(value) => {
                    &&& value < byte_span(width as nat)
                    &&& old(self).remaining() == le_bytes(value as nat, width as nat) + final(self).remaining()
                },
                Err(e) => e == ProtocolError::MalformedPayload && old(self).remaining().len()
                    < width,
            },
    {
        if self.bytes.len() - self.position < width {
            return Err(ProtocolError::MalformedPayload);
        }
        let ghost taken = self.bytes@.subrange(
            self.position as int,
            self.position + width,
        );
        let mut value: u64 = 0;
        let mut left: usize = width;
        proof {
            lemma_byte_spans();
            assert(taken.skip(width as int) =~= Seq::<u8>::empty());
        }
        while left > 0
            invariant
                left <= width <= 8,
                self.position + width <= self.bytes.len(),
                taken == self.bytes@.subrange(self.position as int, self.position + width),
                value == le_value(taken.skip(left as int)),
                byte_span(8) == 0x1_0000_0000_0000_0000,
            decreases left,
        {
            left = left - 1;
            let byte: u8 = self.bytes[self.position + left];
            proof {
                let tail = taken.skip(left as int);
                assert(tail.skip(1) =~= taken.skip(left + 1));
                assert(tail[0] == byte);
                lemma_le_covers(tail);
                lemma_byte_span_grows(tail.len(), 8);
            }
            value = byte as u64 + 256 * value;
        }
        let ghost before = self.remaining();
        self.position = self.position + width;
        proof {
            assert(taken.skip(0) =~= taken);
            lemma_le_covers(taken);
            assert(before =~= taken + self.remaining());
        }
        Ok(value)
    }

    pub fn u8(&mut self) -> (result: Result<u8, ProtocolError>)
        requires
            old(self).wf(),
        ensures
            final(self).wf(),
            match result {
                Ok(value) => old(self).remaining() == le_bytes(value as nat, 1) + final(self).remaining(),
                Err(e) => e == ProtocolError::MalformedPayload && old(self).remaining().len() < 1,
            },
    {
        proof {
            lemma_byte_spans();
        }
        match self.take_le(1) {
            Ok(value) => Ok(value as u8),
            Err(e) => Err(e),
        }
    }

    pub fn u16(&mut self) -> (result: Result<u16, ProtocolError>)
        requires
            old(self).wf(),
        ensures
            final(self).wf(),
            match result {
                Ok(value) => old(self).remaining() == le_bytes(value as nat, 2) + final(self).remaining(),
                Err(e) => e == ProtocolError::MalformedPayload && old(self).remaining().len() < 2,
            },
    {
        proof {
            lemma_byte_spans();
        }
        match self.take_le(2) {
            Ok(value) => Ok(value as u16),
            Err(e) => Err(e),
        }
    }

    pub fn u32(&mut self) -> (result: Result<u32, ProtocolError>)
        requires
            old(self).wf(),
        ensures
            final(self).wf(),
            match result {
                Ok(value) => old(self).remaining() == le_bytes(value as nat, 4) + final(self).remaining(),
                Err(e) => e == ProtocolError::MalformedPayload && old(self).remaining().len() < 4,
            },
    {
        proof {
            lemma_byte_spans();
        }
        match self.take_le(4) {
            Ok(value) => Ok(value as u32),
            Err(e) => Err(e),
        }
    }

    pub fn u64(&mut self) -> (result: Result<u64, ProtocolError>)
        requires
            old(self).wf(),
        ensures
            final(self).wf(),
            match result {
                Ok(value) => old(self).remaining() == le_bytes(value as nat, 8) + final(self).remaining(),
                Err(e) => e == ProtocolError::MalformedPayload && old(self).remaining().len() < 8,
            },
    {
        self.take_le(8)
    }

    /// Reads a length-prefixed string. It fails exactly when the input does not begin with the
    /// bytes of any string.
    pub fn string(&mut self) -> (result: Result<String, ProtocolError>)
        requires
            old(self).wf(),
        ensures
            final(self).wf(),
            match result {
                Ok(text) => string_fits(text@) && old(self).remaining() == string_bytes(text@)
                    + final(self).remaining(),
                Err(e) => e == ProtocolError::MalformedPayload && forall|
                    text: Seq<char>,
                    rest: Seq<u8>,
                |
                    string_fits(text) ==> old(self).remaining() != #[trigger] (string_bytes(text)
                        + rest),
            },
    {
        proof {
            lemma_byte_spans();
        }
        let ghost start = self.remaining();
        let length: u16 = match self.u16() {
            Ok(value) => value,
            Err(e) => {
                assert forall|text: Seq<char>, rest: Seq<u8>|
                    string_fits(text) implies start != #[trigger] (string_bytes(text) + rest) by {
                    lemma_le_len(encode_utf8(text).len(), 2);
                }
                return Err(e);
            },
        };
        let ghost after = self.remaining();
        if self.bytes.len() - self.position < length as usize {
            assert forall|text: Seq<char>, rest: Seq<u8>| string_fits(text) implies start
                != #[trigger] (string_bytes(text) + rest) by {
                if start == string_bytes(text) + rest {
                    assert(start =~= le_bytes(encode_utf8(text).len(), 2) + (encode_utf8(text)
                        + rest));
                    lemma_le_prefix(
                        length as nat,
                        after,
                        encode_utf8(text).len(),
                        encode_utf8(text) + rest,
                        2,
                    );
                }
            }
            return Err(ProtocolError::MalformedPayload);
        }
        let end: usize = self.position + length as usize;
        let taken = vstd::slice::slice_to_vec(
            vstd::slice::slice_subrange(self.bytes, self.position, end),
        );
        let ghost raw = taken@;
        self.position = end;
        assert(after =~= raw + self.remaining());
        match string_from_utf8(taken) {
            Some(text) => {
                proof {
                    decode_utf8_encode_utf8(raw);
                    assert(start =~= string_bytes(text@) + self.remaining());
                }
                Ok(text)
            },
            None => {
                assert forall|text: Seq<char>, rest: Seq<u8>| string_fits(text) implies start
                    != #[trigger] (string_bytes(text) + rest) by {
                    if start == string_bytes(text) + rest {
                        assert(start =~= le_bytes(encode_utf8(text).len(), 2) + (encode_utf8(text)
                            + rest));
                        lemma_le_prefix(
                            length as nat,
                            after,
                            encode_utf8(text).len(),
                            encode_utf8(text) + rest,
                            2,
                        );
                        lemma_cut(raw, self.remaining(), encode_utf8(text), rest);
                        encode_utf8_valid_utf8(text);
                    }
                }
                Err(ProtocolError::MalformedPayload)
            },
        }
    }

    /// Reads `count` 64-bit words; fails when fewer are left.
    pub fn words(&mut self, count: usize) -> (result: Result<Vec<u64>, ProtocolError>)
        requires
            old(self).wf(),
        ensures
            final(self).wf(),
            match result {
                Ok(words) => words@.len() == count && old(self).remaining() == words_bytes(words@)
                    + final(self).remaining(),
                Err(e) => e == ProtocolError::MalformedPayload && old(self).remaining().len() < 8
                    * count,
            },
    {
        let ghost start = self.remaining();
        let mut words: Vec<u64> = Vec::new();
        assert(start =~= words_bytes(words@) + self.remaining());
        while words.len() < count
            invariant
                self.wf(),
                words@.len() <= count,
                start == old(self).remaining(),
                start == words_bytes(words@) + self.remaining(),
            decreases count - words.len(),
        {
            let ghost sofar = words@;
            proof {
                lemma_words_len(sofar);
            }
            match self.u64() {
                Ok(value) => {
                    words.push(value);
                    proof {
                        assert(words@.drop_last() =~= sofar);
                        assert(start =~= words_bytes(words@) + self.remaining());
                    }
                },
                Err(e) => {
                    return Err(e);
                },
            }
        }
        Ok(words)
    }

    /// Reads `count` 32-bit words; fails when fewer are left.
    pub fn halves(&mut self, count: usize) -> (result: Result<Vec<u32>, ProtocolError>)
        requires
            old(self).wf(),
        ensures
            final(self).wf(),
            match result {
                Ok(words) => words@.len() == count && old(self).remaining() == halves_bytes(words@)
                    + final(self).remaining(),
                Err(e) => e == ProtocolError::MalformedPayload && old(self).remaining().len() < 4
                    * count,
            },
    {
        let ghost start = self.remaining();
        let mut words: Vec<u32> = Vec::new();
        assert(start =~= halves_bytes(words@) + self.remaining());
        while words.len() < count
            invariant
                self.wf(),
                words@.len() <= count,
                start == old(self).remaining(),
                start == halves_bytes(words@) + self.remaining(),
            decreases count - words.len(),
        {
            let ghost sofar = words@;
            proof {
                lemma_halves_len(sofar);
            }
            match self.u32() {
                Ok(value) => {
                    words.push(value);
                    proof {
                        assert(words@.drop_last() =~= sofar);
                        assert(start =~= halves_bytes(words@) + self.remaining());
                    }
                },
                Err(e) => {
                    return Err(e);
                },
            }
        }
        Ok(words)
    }

    /// Succeeds when everything has been read.
    pub fn finish(&self) -> (result: Result<(), ProtocolError>)
        requires
            self.wf(),
        ensures
            result is Ok <==> self.remaining().len() == 0,
            result matches Err(e) ==> e == ProtocolError::MalformedPayload,
    {
        if self.position == self.bytes.len() {
            Ok(())
        } else {
            Err(ProtocolError::MalformedPayload)
        }
    }
}

/// A number is written with its least significant byte first.
pub proof fn numbers_are_little_endian(value: nat)
    ensures
        le_bytes(value, 1).len() == 1,
        le_bytes(value, 1)[0] == value % 256,
        le_bytes(value, 2).len() == 2,
        le_bytes(value, 2)[0] == value % 256,
        le_bytes(value, 2)[1] == value / 256 % 256,
        le_bytes(value, 4).len() == 4,
        le_bytes(value, 4)[0] == value % 256,
        le_bytes(value, 4)[1] == value / 256 % 256,
        le_bytes(value, 4)[2] == value / 256 / 256 % 256,
        le_bytes(value, 4)[3] == value / 256 / 256 / 256 % 256,
        le_bytes(value, 8).len() == 8,
        le_bytes(value, 8).take(4) == le_bytes(value, 4),
        le_bytes(value, 8).skip(4) == le_bytes(value / 256 / 256 / 256 / 256, 4),
{
    reveal_with_fuel(le_bytes, 9);
    assert(le_bytes(value, 8).take(4) =~= le_bytes(value, 4));
    assert(le_bytes(value, 8).skip(4) =~= le_bytes(value / 256 / 256 / 256 / 256, 4));
}

/// Word `i` of a run stands at byte `8 * i`.
pub proof fn words_stand_one_after_another(words: Seq<u64>, i: int)
    requires
        0 <= i < words.len(),
    ensures
        words_bytes(words).len() == 8 * words.len(),
        words_bytes(words).subrange(8 * i, 8 * i + 8) == le_bytes(words[i] as nat, 8),
    decreases words.len(),
{
    lemma_words_len(words);
    lemma_words_len(words.drop_last());
    lemma_le_len(words.last() as nat, 8);
    let front = words_bytes(words.drop_last());
    if i < words.len() - 1 {
        words_stand_one_after_another(words.drop_last(), i);
        assert(words_bytes(words).subrange(8 * i, 8 * i + 8) =~= front.subrange(8 * i, 8 * i + 8));
    } else {
        assert(words_bytes(words).subrange(8 * i, 8 * i + 8) =~= le_bytes(words[i] as nat, 8));
    }
}

/// Half word `i` of a run stands at byte `4 * i`.
pub proof fn halves_stand_one_after_another(words: Seq<u32>, i: int)
    requires
        0 <= i < words.len(),
    ensures
        halves_bytes(words).len() == 4 * words.len(),
        halves_bytes(words).subrange(4 * i, 4 * i + 4) == le_bytes(words[i] as nat, 4),
    decreases words.len(),
{
    lemma_halves_len(words);
    lemma_halves_len(words.drop_last());
    lemma_le_len(words.last() as nat, 4);
    let front = halves_bytes(words.drop_last());
    if i < words.len() - 1 {
        halves_stand_one_after_another(words.drop_last(), i);
        assert(halves_bytes(words).subrange(4 * i, 4 * i + 4) =~= front.subrange(4 * i, 4 * i + 4));
    } else {
        assert(halves_bytes(words).subrange(4 * i, 4 * i + 4) =~= le_bytes(words[i] as nat, 4));
    }
}

/// A text is its length in two bytes, least significant first, and then its UTF-8 bytes.
pub proof fn a_text_follows_its_length(text: Seq<char>)
    ensures
        string_bytes(text).len() == 2 + encode_utf8(text).len(),
        string_bytes(text)[0] == encode_utf8(text).len() % 256,
        string_bytes(text)[1] == encode_utf8(text).len() / 256 % 256,
        string_bytes(text).skip(2) == encode_utf8(text),
        string_fits(text) <==> encode_utf8(text).len() <= 65535,
        MAX_ITEMS == 65535,
{
    numbers_are_little_endian(encode_utf8(text).len());
    assert(string_bytes(text).skip(2) =~= encode_utf8(text));
}

} // verus!
