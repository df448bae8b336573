//! Inner field access: encode a path (field codes and array indices) into the compact binary
//! format the host understands, then read a field like `Memos[0].MemoType`.
//!
//! Two APIs share the same buffer layout:
//!
//! - [`TxPathBuilder`] and [`LedgerPathBuilder`] are the fluent builders. Each is rooted at its
//!   context (the current transaction, the current ledger object, or a slot-cached ledger
//!   object), so the terminal `get` always reads through the host function that matches it.
//! - [`Locator`] itself is the lower-level buffer: [`pack`](Locator::pack) values in and hand
//!   [`as_bytes`](Locator::as_bytes) to a raw host call.
//!
//! A locator is a sequence of at most 16 segments, each written as the 4 little-endian bytes of
//! an `i32`. Its model is that sequence of segments.

use vstd::prelude::*;
use crate::host::calls::{Host, HostCall, made_calls};
use crate::host::bindings::writes_within;
use crate::bytes::{
    lemma_u32_from_le_roundtrip, lemma_u32_le_roundtrip, u32_from_le, u32_le, u32_to_le_bytes,
    zero_bytes,
};
use crate::fields::decoder::{
    FieldDecoder, FromCurrentTx, FromLedger, decode_result, optional, spec_decode_result,
    spec_optional,
};
use crate::host::{Error, HostBindings};
use crate::sfield::SField;

verus! {

broadcast use vstd::array::group_array_axioms;

/// The size of a locator's buffer in bytes.
pub const LOCATOR_BUFFER_SIZE: usize = 64;

/// The most segments a locator holds.
pub const MAX_SEGMENTS: usize = 16;

/// The four bytes a segment is written as: the little-endian bytes of the `i32`.
pub open spec fn segment_bytes(value: i32) -> Seq<u8> {
    u32_le(value as u32)
}

/// The bytes a sequence of segments is written as, one after the other.
pub open spec fn encode_segments(s: Seq<i32>) -> Seq<u8>
    decreases s.len(),
{
    if s.len() == 0 {
        Seq::empty()
    } else {
        encode_segments(s.drop_last()) + segment_bytes(s.last())
    }
}

/// The segments after packing `value`: appended when there is room, unchanged when the locator
/// is full.
pub open spec fn spec_pack(s: Seq<i32>, value: i32) -> Seq<i32> {
    if s.len() < MAX_SEGMENTS {
        s.push(value)
    } else {
        s
    }
}

/// The segments after repacking the last one with `value`: replaced when there is one,
/// unchanged when the locator is empty.
pub open spec fn spec_repack_last(s: Seq<i32>, value: i32) -> Seq<i32> {
    if s.len() > 0 {
        s.update(s.len() - 1, value)
    } else {
        s
    }
}

/// The segment written at position `i` of `buf`.
spec fn segment_at(buf: Seq<u8>, i: int) -> i32 {
    u32_from_le(buf.subrange(4 * i, 4 * i + 4)) as i32
}

/// The segments written in the first `k` positions of `buf`.
spec fn segments_of(buf: Seq<u8>, k: nat) -> Seq<i32> {
    Seq::new(k, |i: int| segment_at(buf, i))
}

/// A path to an inner field: a sequence of 4-byte packed values (field codes or array indices)
/// in the binary format the host understands.
///
/// It is `Copy`: a copy is a plain copy of the buffer, which keeps the locator's invariant.
#[derive(Clone, Copy, PartialEq, Eq, Debug)]
pub struct Locator {
    buffer: [u8; 64],
    /// Where in `buffer` the next packed value goes.
    cur_buffer_index: usize,
}

impl View for Locator {
    type V = Seq<i32>;

    closed spec fn view(&self) -> Seq<i32> {
        segments_of(self.buffer@, (self.cur_buffer_index / 4) as nat)
    }
}

impl Locator {
    /// The packed bytes fill whole segments within the buffer, and the bytes after them are zero.
    #[verifier::type_invariant]
    closed spec fn inv(self) -> bool {
        &&& self.cur_buffer_index <= LOCATOR_BUFFER_SIZE
        &&& self.cur_buffer_index % 4 == 0
        &&& forall|j: int|
            self.cur_buffer_index <= j < LOCATOR_BUFFER_SIZE ==> #[trigger] self.buffer@[j] == 0
    }

    /// Creates an empty locator.
    pub fn new() -> (r: Locator)
        ensures
            r@ == Seq::<i32>::empty(),
    {
        let buffer: [u8; 64] = [0u8; 64];
        proof {
            broadcast use vstd::array::axiom_spec_array_fill_for_copy_type;

            assert(buffer == vstd::array::spec_array_fill_for_copy_type::<u8, 64>(0u8));
        }
        assert(forall|j: int| 0 <= j < LOCATOR_BUFFER_SIZE ==> buffer@[j] == 0);
        let r = Locator { buffer, cur_buffer_index: 0 };
        assert(r@ =~= Seq::<i32>::empty());
        r
    }

    /// Appends a value (a field code or an array index) to the path. Returns `false`, and leaves
    /// the locator unchanged, when its 16 segments are taken.
    pub fn pack(&mut self, sfield_or_index: i32) -> (r: bool)
        ensures
            r == (old(self)@.len() < MAX_SEGMENTS),
            final(self)@ == spec_pack(old(self)@, sfield_or_index),
    {
        proof {
            use_type_invariant(&*self);
        }
        let cur = self.cur_buffer_index;
        if cur + 4 > LOCATOR_BUFFER_SIZE {
            proof {
                assert(old(self)@.len() == MAX_SEGMENTS);
            }
            return false;
        }
        let buffer = write_segment(self.buffer, cur, sfield_or_index);
        proof {
            lemma_write_segment_view(self.buffer@, buffer@, cur as int, sfield_or_index);
            assert forall|j: int| cur + 4 <= j < LOCATOR_BUFFER_SIZE implies #[trigger] buffer@[j]
                == 0 by {
                assert(buffer@[j] == self.buffer@[j]);
            }
        }
        *self = Locator { buffer, cur_buffer_index: cur + 4 };
        true
    }

    /// The packed bytes: the four bytes of each segment, in order.
    pub fn as_bytes(&self) -> (r: &[u8])
        ensures
            r@ == encode_segments(self@),
            r@.len() == 4 * self@.len(),
            self@.len() <= MAX_SEGMENTS,
    {
        proof {
            use_type_invariant(self);
            lemma_encode_segments_of(self.buffer@, (self.cur_buffer_index / 4) as nat);
        }
        vstd::slice::slice_subrange(
            vstd::array::array_as_slice(&self.buffer),
            0,
            self.cur_buffer_index,
        )
    }

    /// The number of packed bytes: four per segment.
    pub fn num_packed_bytes(&self) -> (r: usize)
        ensures
            r == 4 * self@.len(),
            self@.len() <= MAX_SEGMENTS,
    {
        proof {
            use_type_invariant(self);
        }
        self.cur_buffer_index
    }

    /// The number of packed bytes: four per segment.
    pub fn len(&self) -> (r: usize)
        ensures
            r == 4 * self@.len(),
            self@.len() <= MAX_SEGMENTS,
    {
        proof {
            use_type_invariant(self);
        }
        self.cur_buffer_index
    }

    /// Whether nothing has been packed.
    pub fn is_empty(&self) -> (r: bool)
        ensures
            r == (self@.len() == 0),
    {
        proof {
            use_type_invariant(self);
        }
        self.cur_buffer_index == 0
    }

    /// Replaces the last packed value. Returns `false`, and leaves the locator unchanged, when
    /// nothing has been packed.
    pub fn repack_last(&mut self, sfield_or_index: i32) -> (r: bool)
        ensures
            r == (old(self)@.len() > 0),
            final(self)@ == spec_repack_last(old(self)@, sfield_or_index),
    {
        proof {
            use_type_invariant(&*self);
        }
        let cur = self.cur_buffer_index;
        if cur < 4 {
            return false;
        }
        let at = cur - 4;
        let buffer = write_segment(self.buffer, at, sfield_or_index);
        proof {
            lemma_write_segment_view(self.buffer@, buffer@, at as int, sfield_or_index);
            let k = (at / 4) as nat;
            assert(segments_of(self.buffer@, k) =~= old(self)@.subrange(0, k as int));
            assert(segments_of(buffer@, k + 1) =~= old(self)@.update(k as int, sfield_or_index));
            assert forall|j: int| cur <= j < LOCATOR_BUFFER_SIZE implies #[trigger] buffer@[j]
                == 0 by {
                assert(buffer@[j] == self.buffer@[j]);
            }
        }
        *self = Locator { buffer, cur_buffer_index: cur };
        true
    }
}

impl Default for Locator {
    fn default() -> (r: Locator)
        ensures
            r@ == Seq::<i32>::empty(),
    {
        Locator::new()
    }
}

/// `buf` with the segment `value` written at byte `at`.
fn write_segment(buf: [u8; 64], at: usize, value: i32) -> (r: [u8; 64])
    requires
        at + 4 <= 64,
    ensures
        r@ == buf@.subrange(0, at as int) + segment_bytes(value) + buf@.subrange(at + 4, 64),
{
    let bytes = u32_to_le_bytes(value as u32);
    let mut r = buf;
    r[at] = bytes[0];
    r[at + 1] = bytes[1];
    r[at + 2] = bytes[2];
    r[at + 3] = bytes[3];
    assert(r@ =~= buf@.subrange(0, at as int) + segment_bytes(value) + buf@.subrange(at + 4, 64));
    r
}

/// A segment written as its bytes reads back as itself.
proof fn lemma_segment_round_trip(value: i32)
    ensures
        segment_bytes(value).len() == 4,
        u32_from_le(segment_bytes(value)) as i32 == value,
{
    let x = value as u32;
    lemma_u32_le_roundtrip(x);
    assert((x as i32) == value) by (bit_vector)
        requires
            x == value as u32,
    ;
}

/// Four bytes are the bytes of the segment they encode.
proof fn lemma_bytes_round_trip(s: Seq<u8>)
    requires
        s.len() == 4,
    ensures
        segment_bytes(u32_from_le(s) as i32) == s,
{
    let x = u32_from_le(s);
    lemma_u32_from_le_roundtrip(s);
    assert(((x as i32) as u32) == x) by (bit_vector);
}

/// Writing a segment at a segment boundary keeps the segments before it and sets the one it
/// covers.
proof fn lemma_write_segment_view(old_buf: Seq<u8>, new_buf: Seq<u8>, at: int, value: i32)
    requires
        old_buf.len() == 64,
        0 <= at,
        at + 4 <= 64,
        at % 4 == 0,
        new_buf == old_buf.subrange(0, at) + segment_bytes(value) + old_buf.subrange(at + 4, 64),
    ensures
        new_buf.len() == 64,
        segments_of(new_buf, (at / 4 + 1) as nat) == segments_of(old_buf, (at / 4) as nat).push(
            value,
        ),
        forall|j: int| 0 <= j < at || at + 4 <= j < 64 ==> new_buf[j] == old_buf[j],
{
    let k = at / 4;
    lemma_segment_round_trip(value);
    assert forall|i: int| 0 <= i < k implies segment_at(new_buf, i) == segment_at(old_buf, i) by {
        assert(new_buf.subrange(4 * i, 4 * i + 4) =~= old_buf.subrange(4 * i, 4 * i + 4));
    }
    assert(new_buf.subrange(4 * k, 4 * k + 4) =~= segment_bytes(value));
    assert(segments_of(new_buf, (k + 1) as nat) =~= segments_of(old_buf, k as nat).push(value));
}

/// The first `4 * k` bytes of a buffer are the encoding of the `k` segments they hold.
proof fn lemma_encode_segments_of(buf: Seq<u8>, k: nat)
    requires
        4 * k <= buf.len(),
    ensures
        encode_segments(segments_of(buf, k)) == buf.subrange(0, 4 * k as int),
    decreases k,
{
    if k == 0 {
        assert(segments_of(buf, 0) =~= Seq::<i32>::empty());
        assert(buf.subrange(0, 0) =~= Seq::<u8>::empty());
    } else {
        let s = segments_of(buf, k);
        lemma_encode_segments_of(buf, (k - 1) as nat);
        assert(s.drop_last() =~= segments_of(buf, (k - 1) as nat));
        let chunk = buf.subrange(4 * (k - 1), 4 * k as int);
        lemma_bytes_round_trip(chunk);
        assert(buf.subrange(0, 4 * k as int) =~= buf.subrange(0, 4 * (k - 1)) + chunk);
    }
}

/// Packing a value and then repacking the last segment with another is the same as packing the
/// other, whenever the locator had room.
pub proof fn lemma_pack_then_repack(s: Seq<i32>, first: i32, second: i32)
    requires
        s.len() < MAX_SEGMENTS,
    ensures
        spec_repack_last(spec_pack(s, first), second) == spec_pack(s, second),
{
    assert(spec_repack_last(spec_pack(s, first), second) =~= spec_pack(s, second));
}

/// The encoding of the segments after a pack is the encoding before, followed by the four bytes
/// of the packed value.
pub proof fn lemma_pack_encoding(s: Seq<i32>, value: i32)
    requires
        s.len() < MAX_SEGMENTS,
    ensures
        encode_segments(spec_pack(s, value)) == encode_segments(s) + segment_bytes(value),
{
    assert(s.push(value).drop_last() =~= s);
}

/// Once the locator is full, packing changes nothing, whatever is packed.
pub proof fn lemma_pack_full(s: Seq<i32>, value: i32)
    requires
        s.len() >= MAX_SEGMENTS,
    ensures
        spec_pack(s, value) == s,
{
}

/// The path after appending a segment: packed when there is room, and marked malformed when
/// there was none.
pub open spec fn spec_push(segments: Seq<i32>, malformed: bool, value: i32) -> (Seq<i32>, bool) {
    (spec_pack(segments, value), malformed || segments.len() >= MAX_SEGMENTS)
}

/// The path after appending an array index: an index above `i32::MAX` would be read by the host
/// as a field code, so it is not packed and marks the path malformed instead.
pub open spec fn spec_push_index(segments: Seq<i32>, malformed: bool, index: u32) -> (
    Seq<i32>,
    bool,
) {
    if index > i32::MAX {
        (segments, true)
    } else {
        spec_push(segments, malformed, index as i32)
    }
}

/// What [`array_len_from_code`] makes of the host's answer: a negative code is the host's error,
/// any other value the length.
pub open spec fn spec_array_len_from_code(code: i32) -> Result<u32, Error> {
    if code < 0 {
        Err(Error::spec_from_code(code))
    } else {
        Ok(code as u32)
    }
}

/// Turns the host's answer to an array-length query into a length or an error.
pub fn array_len_from_code(code: i32) -> (r: Result<u32, Error>)
    ensures
        r == spec_array_len_from_code(code),
{
    if code < 0 {
        Err(Error::from_code(code))
    } else {
        Ok(code as u32)
    }
}

/// Whether `r` is the decoding of some answer of the host to a read, into an `N`-byte buffer, of
/// the field of the current transaction that the path `segments` points at.
///
/// `post` is the handle `pre` after exactly that one host call.
pub open spec fn tx_inner_read<'a, H: HostBindings, T: FieldDecoder<N>, const N: usize>(
    pre: Host<'a, H>,
    post: Host<'a, H>,
    segments: Seq<i32>,
    r: Result<T, Error>,
) -> bool {
    &&& made_calls(pre, post, seq![HostCall::TxInner])
    &&& exists|code: i32, buf: [u8; N]|
        #[trigger] pre.bindings().tx_inner_answers(encode_segments(segments), zero_bytes(N as nat), code, buf@)
            && writes_within(zero_bytes(N as nat), code, buf@) && r
            == spec_decode_result::<T, N>(buf, code)
}

/// Whether `r` is what [`array_len_from_code`] makes of some answer of the host to a query of the
/// length of the array of the current transaction that the path `segments` points at.
///
/// `post` is the handle `pre` after exactly that one host call.
pub open spec fn tx_array_len_read<'a, H: HostBindings>(
    pre: Host<'a, H>,
    post: Host<'a, H>,
    segments: Seq<i32>,
    r: Result<u32, Error>,
) -> bool {
    &&& made_calls(pre, post, seq![HostCall::TxInnerArrLen])
    &&& exists|code: i32|
        #[trigger] pre.bindings().tx_inner_arr_len_answers(encode_segments(segments), code) && r
            == spec_array_len_from_code(code)
}

/// The host function that reads an inner field of `source`.
pub open spec fn ledger_inner_call(source: LedgerSource) -> HostCall {
    match source {
        LedgerSource::Current => HostCall::HomeLeInner,
        LedgerSource::Slot(_) => HostCall::LeInner,
    }
}

/// The host function that answers the length of an inner array of `source`.
pub open spec fn ledger_inner_arr_len_call(source: LedgerSource) -> HostCall {
    match source {
        LedgerSource::Current => HostCall::HomeLeInnerArrLen,
        LedgerSource::Slot(_) => HostCall::LeInnerArrLen,
    }
}

/// Whether the host may answer the inner-field read of `source` for the packed `locator`, handed
/// the buffer `before`, with the result code `code`, leaving `written` in the buffer.
pub open spec fn ledger_inner_answers<H: HostBindings>(
    bindings: &H,
    source: LedgerSource,
    locator: Seq<u8>,
    before: Seq<u8>,
    code: i32,
    written: Seq<u8>,
) -> bool {
    match source {
        LedgerSource::Current => bindings.home_le_inner_answers(locator, before, code, written),
        LedgerSource::Slot(slot) => bindings.le_inner_answers(slot, locator, before, code, written),
    }
}

/// Whether the host may answer the inner-array-length query of `source` for the packed `locator`
/// with `code`.
pub open spec fn ledger_inner_arr_len_answers<H: HostBindings>(
    bindings: &H,
    source: LedgerSource,
    locator: Seq<u8>,
    code: i32,
) -> bool {
    match source {
        LedgerSource::Current => bindings.home_le_inner_arr_len_answers(locator, code),
        LedgerSource::Slot(slot) => bindings.le_inner_arr_len_answers(slot, locator, code),
    }
}

/// Whether `r` is the decoding of some answer of the host to a read, into an `N`-byte buffer, of
/// the field of the ledger object `source` that the path `segments` points at.
///
/// `post` is the handle `pre` after exactly that one host call.
pub open spec fn ledger_inner_read<'a, H: HostBindings, T: FieldDecoder<N>, const N: usize>(
    pre: Host<'a, H>,
    post: Host<'a, H>,
    source: LedgerSource,
    segments: Seq<i32>,
    r: Result<T, Error>,
) -> bool {
    &&& made_calls(pre, post, seq![ledger_inner_call(source)])
    &&& exists|code: i32, buf: [u8; N]|
        #[trigger] ledger_inner_answers(pre.bindings(), source, encode_segments(segments), zero_bytes(N as nat), code, buf@)
            && writes_within(zero_bytes(N as nat), code, buf@)
            && r == spec_decode_result::<T, N>(buf, code)
}

/// Whether `r` is what [`array_len_from_code`] makes of some answer of the host to a query of the
/// length of the array of the ledger object `source` that the path `segments` points at.
///
/// `post` is the handle `pre` after exactly that one host call.
pub open spec fn ledger_array_len_read<'a, H: HostBindings>(
    pre: Host<'a, H>,
    post: Host<'a, H>,
    source: LedgerSource,
    segments: Seq<i32>,
    r: Result<u32, Error>,
) -> bool {
    &&& made_calls(pre, post, seq![ledger_inner_arr_len_call(source)])
    &&& exists|code: i32|
        #[trigger] ledger_inner_arr_len_answers(pre.bindings(), source, encode_segments(segments), code) && r
            == spec_array_len_from_code(code)
}

/// Fluent builder for reading an inner field of the current transaction.
///
/// Each [`field`](Self::field) / [`index`](Self::index) call appends one segment. A path longer
/// than the 16 segments the buffer holds, or an index above `i32::MAX`, is not silently
/// truncated: the path is marked malformed for good, and the terminals answer
/// `LocatorMalformed` without calling the host.
#[derive(Clone, Copy, PartialEq, Eq, Debug)]
pub struct TxPathBuilder {
    locator: Locator,
    overflowed: bool,
}

impl TxPathBuilder {
    /// The segments of the path built so far.
    pub closed spec fn spec_segments(self) -> Seq<i32> {
        self.locator@
    }

    /// Whether a segment could not be encoded.
    pub closed spec fn spec_malformed(self) -> bool {
        self.overflowed
    }

    /// A new, empty path rooted at the current transaction.
    pub fn for_current_tx() -> (r: TxPathBuilder)
        ensures
            r.spec_segments() == Seq::<i32>::empty(),
            !r.spec_malformed(),
    {
        TxPathBuilder { locator: Locator::new(), overflowed: false }
    }

    /// Appends a field code to the path.
    pub fn field<F: SField>(self, field: F) -> (r: TxPathBuilder)
        ensures
            (r.spec_segments(), r.spec_malformed()) == spec_push(
                self.spec_segments(),
                self.spec_malformed(),
                F::spec_code(),
            ),
    {
        self.push(field.code())
    }

    /// Appends an array index to the path (the `0` in `Memos[0]`).
    pub fn index(self, index: u32) -> (r: TxPathBuilder)
        ensures
            (r.spec_segments(), r.spec_malformed()) == spec_push_index(
                self.spec_segments(),
                self.spec_malformed(),
                index,
            ),
    {
        if index > 0x7FFF_FFFFu32 {
            let mut b = self;
            b.overflowed = true;
            b
        } else {
            self.push(index as i32)
        }
    }

    /// Appends one segment, recording when it did not fit.
    fn push(self, value: i32) -> (r: TxPathBuilder)
        ensures
            (r.spec_segments(), r.spec_malformed()) == spec_push(
                self.spec_segments(),
                self.spec_malformed(),
                value,
            ),
    {
        let mut b = self;
        if !b.locator.pack(value) {
            b.overflowed = true;
        }
        b
    }

    /// The locator built so far.
    pub fn locator(&self) -> (r: &Locator)
        ensures
            r@ == self.spec_segments(),
    {
        &self.locator
    }

    /// Whether a segment could not be encoded.
    pub fn overflowed(&self) -> (r: bool)
        ensures
            r == self.spec_malformed(),
    {
        self.overflowed
    }

    /// Reads the field the path points at and decodes it as `T`. A malformed path gives
    /// `LocatorMalformed` without a host call.
    pub fn get<H: HostBindings, T: FromCurrentTx<N>, const N: usize>(&self, host: &mut Host<H>) -> (r:
        Result<T, Error>)
        ensures
            self.spec_malformed() ==> r == Err::<T, Error>(Error::LocatorMalformed),
            self.spec_malformed() ==> *final(host) == *old(host),
            !self.spec_malformed() ==> tx_inner_read::<H, T, N>(*old(host), *final(host), self.spec_segments(), r),
    {
        if self.overflowed {
            return Err(Error::LocatorMalformed);
        }
        let (buf, n) = self.read::<H, T, N>(host);
        decode_result::<T, N>(&buf, n)
    }

    /// Runs the path through the host's inner-field read of the current transaction into a fresh
    /// `N`-byte buffer, and returns the buffer and the host's result code.
    fn read<H: HostBindings, T: FromCurrentTx<N>, const N: usize>(&self, host: &mut Host<H>) -> (r: (
        [u8; N],
        i32,
    ))
        ensures
            made_calls(*old(host), *final(host), seq![HostCall::TxInner]),
            old(host).bindings().tx_inner_answers(
                encode_segments(self.spec_segments()),
                zero_bytes(N as nat),
                r.1,
                r.0@,
            ),
            writes_within(zero_bytes(N as nat), r.1, r.0@),
    {
        let mut buf = T::empty_buffer();
        let n = host.tx_inner(self.locator.as_bytes(), &mut buf);
        (buf, n)
    }

    /// Like [`get`](Self::get), but an absent field is `Ok(None)`.
    pub fn get_optional<H: HostBindings, T: FromCurrentTx<N>, const N: usize>(&self, host: &mut Host<H>) -> (r:
        Result<Option<T>, Error>)
        ensures
            self.spec_malformed() ==> r == Err::<Option<T>, Error>(Error::LocatorMalformed),
            self.spec_malformed() ==> *final(host) == *old(host),
            !self.spec_malformed() ==> exists|v: Result<T, Error>|
                tx_inner_read::<H, T, N>(*old(host), *final(host), self.spec_segments(), v) && r
                    == #[trigger] spec_optional(v),
    {
        let v = self.get::<H, T, N>(host);
        optional(v)
    }

    /// Asks the host how many entries the array the path points at holds. A malformed path gives
    /// `LocatorMalformed` without a host call.
    pub fn array_len<H: HostBindings>(&self, host: &mut Host<H>) -> (r: Result<u32, Error>)
        ensures
            self.spec_malformed() ==> r == Err::<u32, Error>(Error::LocatorMalformed),
            self.spec_malformed() ==> *final(host) == *old(host),
            !self.spec_malformed() ==> tx_array_len_read(*old(host), *final(host), self.spec_segments(), r),
    {
        if self.overflowed {
            return Err(Error::LocatorMalformed);
        }
        let n = host.tx_inner_arr_len(self.locator.as_bytes());
        array_len_from_code(n)
    }
}

/// Which ledger object a [`LedgerPathBuilder`] reads from: the current one, or one cached in a
/// slot.
#[derive(Clone, Copy, PartialEq, Eq, Debug, Structural)]
pub enum LedgerSource {
    /// The ledger object the contract is attached to.
    Current,
    /// A ledger object cached in the given slot.
    Slot(i32),
}

impl LedgerSource {
    /// Issues this source's inner-field host call.
    fn read_field<H: HostBindings>(&self, host: &mut Host<H>, locator: &[u8], out: &mut [u8]) -> (r: i32)
        ensures
            made_calls(*old(host), *final(host), seq![ledger_inner_call(*self)]),
            ledger_inner_answers(old(host).bindings(), *self, locator@, old(out)@, r, final(out)@),
            writes_within(old(out)@, r, final(out)@),
    {
        match *self {
            LedgerSource::Current => host.home_le_inner(locator, out),
            LedgerSource::Slot(slot) => host.le_inner(slot, locator, out),
        }
    }

    /// Issues this source's inner-array-length host call.
    fn read_array_len<H: HostBindings>(&self, host: &mut Host<H>, locator: &[u8]) -> (r: i32)
        ensures
            made_calls(*old(host), *final(host), seq![ledger_inner_arr_len_call(*self)]),
            ledger_inner_arr_len_answers(old(host).bindings(), *self, locator@, r),
    {
        match *self {
            LedgerSource::Current => host.home_le_inner_arr_len(locator),
            LedgerSource::Slot(slot) => host.le_inner_arr_len(slot, locator),
        }
    }
}

/// Fluent builder for reading an inner field of a ledger object: the current one, or one cached
/// in a slot. It behaves as [`TxPathBuilder`] does, and reads through the ledger-object host
/// functions of its source.
#[derive(Clone, Copy, PartialEq, Eq, Debug)]
pub struct LedgerPathBuilder {
    locator: Locator,
    overflowed: bool,
    source: LedgerSource,
}

impl LedgerPathBuilder {
    /// The segments of the path built so far.
    pub closed spec fn spec_segments(self) -> Seq<i32> {
        self.locator@
    }

    /// Whether a segment could not be encoded.
    pub closed spec fn spec_malformed(self) -> bool {
        self.overflowed
    }

    /// The ledger object the path reads from.
    pub closed spec fn spec_source(self) -> LedgerSource {
        self.source
    }

    /// A new, empty path rooted at the current ledger object.
    pub fn for_current_ledger_obj() -> (r: LedgerPathBuilder)
        ensures
            r.spec_segments() == Seq::<i32>::empty(),
            !r.spec_malformed(),
            r.spec_source() == LedgerSource::Current,
    {
        LedgerPathBuilder::new(LedgerSource::Current)
    }

    /// A new, empty path rooted at the ledger object cached in `slot`.
    pub fn for_ledger_obj(slot: i32) -> (r: LedgerPathBuilder)
        ensures
            r.spec_segments() == Seq::<i32>::empty(),
            !r.spec_malformed(),
            r.spec_source() == LedgerSource::Slot(slot),
    {
        LedgerPathBuilder::new(LedgerSource::Slot(slot))
    }

    /// A new, empty path rooted at `source`.
    fn new(source: LedgerSource) -> (r: LedgerPathBuilder)
        ensures
            r.spec_segments() == Seq::<i32>::empty(),
            !r.spec_malformed(),
            r.spec_source() == source,
    {
        LedgerPathBuilder { locator: Locator::new(), overflowed: false, source }
    }

    /// Appends a field code to the path.
    pub fn field<F: SField>(self, field: F) -> (r: LedgerPathBuilder)
        ensures
            (r.spec_segments(), r.spec_malformed()) == spec_push(
                self.spec_segments(),
                self.spec_malformed(),
                F::spec_code(),
            ),
            r.spec_source() == self.spec_source(),
    {
        self.push(field.code())
    }

    /// Appends an array index to the path (the `2` in `SignerEntries[2]`).
    pub fn index(self, index: u32) -> (r: LedgerPathBuilder)
        ensures
            (r.spec_segments(), r.spec_malformed()) == spec_push_index(
                self.spec_segments(),
                self.spec_malformed(),
                index,
            ),
            r.spec_source() == self.spec_source(),
    {
        if index > 0x7FFF_FFFFu32 {
            let mut b = self;
            b.overflowed = true;
            b
        } else {
            self.push(index as i32)
        }
    }

    /// Appends one segment, recording when it did not fit.
    fn push(self, value: i32) -> (r: LedgerPathBuilder)
        ensures
            (r.spec_segments(), r.spec_malformed()) == spec_push(
                self.spec_segments(),
                self.spec_malformed(),
                value,
            ),
            r.spec_source() == self.spec_source(),
    {
        let mut b = self;
        if !b.locator.pack(value) {
            b.overflowed = true;
        }
        b
    }

    /// The locator built so far.
    pub fn locator(&self) -> (r: &Locator)
        ensures
            r@ == self.spec_segments(),
    {
        &self.locator
    }

    /// Whether a segment could not be encoded.
    pub fn overflowed(&self) -> (r: bool)
        ensures
            r == self.spec_malformed(),
    {
        self.overflowed
    }

    /// The ledger object the path reads from.
    pub fn source(&self) -> (r: LedgerSource)
        ensures
            r == self.spec_source(),
    {
        self.source
    }

    /// Reads the field the path points at and decodes it as `T`. A malformed path gives
    /// `LocatorMalformed` without a host call.
    pub fn get<H: HostBindings, T: FromLedger<N>, const N: usize>(&self, host: &mut Host<H>) -> (r: Result<
        T,
        Error,
    >)
        ensures
            self.spec_malformed() ==> r == Err::<T, Error>(Error::LocatorMalformed),
            self.spec_malformed() ==> *final(host) == *old(host),
            !self.spec_malformed() ==> ledger_inner_read::<H, T, N>(
                *old(host),
                *final(host),
                self.spec_source(),
                self.spec_segments(),
                r,
            ),
    {
        if self.overflowed {
            return Err(Error::LocatorMalformed);
        }
        let (buf, n) = self.read::<H, T, N>(host);
        decode_result::<T, N>(&buf, n)
    }

    /// Runs the path through the source's inner-field read into a fresh `N`-byte buffer, and
    /// returns the buffer and the host's result code.
    fn read<H: HostBindings, T: FromLedger<N>, const N: usize>(&self, host: &mut Host<H>) -> (r: (
        [u8; N],
        i32,
    ))
        ensures
            made_calls(*old(host), *final(host), seq![ledger_inner_call(self.spec_source())]),
            ledger_inner_answers(
                old(host).bindings(),
                self.spec_source(),
                encode_segments(self.spec_segments()),
                zero_bytes(N as nat),
                r.1,
                r.0@,
            ),
            writes_within(zero_bytes(N as nat), r.1, r.0@),
    {
        let mut buf = T::empty_buffer();
        let n = self.source.read_field(host, self.locator.as_bytes(), &mut buf);
        (buf, n)
    }

    /// Like [`get`](Self::get), but an absent field is `Ok(None)`.
    ///
    /// Only a field the host reports as not found is absent: a variable-length field the host
    /// reports as a zero-byte write is `Ok(Some(..))` of length 0.
    pub fn get_optional<H: HostBindings, T: FromLedger<N>, const N: usize>(&self, host: &mut Host<H>) -> (r:
        Result<Option<T>, Error>)
        ensures
            self.spec_malformed() ==> r == Err::<Option<T>, Error>(Error::LocatorMalformed),
            self.spec_malformed() ==> *final(host) == *old(host),
            !self.spec_malformed() ==> exists|v: Result<T, Error>|
                ledger_inner_read::<H, T, N>(*old(host), *final(host), self.spec_source(), self.spec_segments(), v) && r
                    == #[trigger] spec_optional(v),
    {
        let v = self.get::<H, T, N>(host);
        optional(v)
    }

    /// Asks the host how many entries the array the path points at holds. A malformed path gives
    /// `LocatorMalformed` without a host call.
    pub fn array_len<H: HostBindings>(&self, host: &mut Host<H>) -> (r: Result<u32, Error>)
        ensures
            self.spec_malformed() ==> r == Err::<u32, Error>(Error::LocatorMalformed),
            self.spec_malformed() ==> *final(host) == *old(host),
            !self.spec_malformed() ==> ledger_array_len_read(
                *old(host),
                *final(host),
                self.spec_source(),
                self.spec_segments(),
                r,
            ),
    {
        if self.overflowed {
            return Err(Error::LocatorMalformed);
        }
        let n = self.source.read_array_len(host, self.locator.as_bytes());
        array_len_from_code(n)
    }
}

/// Once a path is malformed it stays malformed, whatever is appended.
pub proof fn lemma_malformed_is_sticky(segments: Seq<i32>, value: i32, index: u32)
    ensures
        spec_push(segments, true, value).1,
        spec_push_index(segments, true, index).1,
{
}

/// A path never holds more than 16 segments, and appending to a full path marks it malformed
/// and leaves its segments as they were.
pub proof fn lemma_push_bound(segments: Seq<i32>, malformed: bool, value: i32)
    requires
        segments.len() <= MAX_SEGMENTS,
    ensures
        spec_push(segments, malformed, value).0.len() <= MAX_SEGMENTS,
        segments.len() == MAX_SEGMENTS ==> spec_push(segments, malformed, value) == (
            segments,
            true,
        ),
        segments.len() < MAX_SEGMENTS ==> spec_push(segments, malformed, value) == (
            segments.push(value),
            malformed,
        ),
{
}

} // verus!
