//! Amounts of XRP, of an issued currency, or of a multi-purpose token, and their serialized
//! (`STAmount`) form.
//!
//! The serialized form the host writes and reads:
//! - XRP: 8 bytes, big-endian; bit 63 clear, bit 62 set for a non-negative amount, the low 62
//!   bits the number of drops.
//! - Issued currency: bit 63 set; the 8-byte value, the 20-byte currency code, the 20-byte
//!   issuer.
//! - Token: a flag byte (bit 5 set, bit 6 set for a positive amount), the 8-byte big-endian
//!   number of units, the 24-byte issuance identifier.

use vstd::prelude::*;
use crate::bytes::{lemma_u64_be_roundtrip, lemma_u64_from_be_roundtrip, u64_be, u64_from_be};
use crate::fields::decoder::{FieldDecoder, FromCurrentTx, FromLedger};
use crate::types::account_id::AccountID;
use crate::types::currency::Currency;
use crate::types::decode_error::DecodeError;
use crate::types::iou_number::IOUNumber;
use crate::types::mpt_id::MptId;
use crate::types::uint::{array_of, lemma_array_of, lemma_array_of_seq, sub_array};

verus! {

broadcast use vstd::array::group_array_axioms;

/// The size of the largest serialized amount (an issued currency) in bytes.
pub const AMOUNT_SIZE: usize = 48;

/// Bit 63 of the leading word: the amount is an issued currency.
pub const IOU_FLAG: u8 = 0x80;

/// Bit 62 of the leading word: the amount is not negative.
pub const POSITIVE_FLAG: u8 = 0x40;

/// Bit 61 of the leading word: the amount is a multi-purpose token.
pub const MPT_FLAG: u8 = 0x20;

/// The leading byte of a positive token amount.
pub const MPT_POSITIVE_LEAD: u8 = 0x60;

/// The leading byte of a negative token amount.
pub const MPT_NEGATIVE_LEAD: u8 = 0x20;

/// The low 62 bits of an XRP amount's word: its magnitude in drops.
pub const XRP_MAGNITUDE_MASK: u64 = 0x3FFF_FFFF_FFFF_FFFF;

/// The bit of an XRP amount's word that marks it as not negative.
pub const XRP_POSITIVE_BIT: u64 = 0x4000_0000_0000_0000;

/// An amount of some asset.
#[derive(Debug, Clone, Copy, PartialEq, Eq)]
pub enum Amount {
    /// A signed number of drops of XRP.
    XRP { num_drops: i64 },
    /// An amount of an issued currency: its opaque 8-byte value, the issuer and the currency.
    IOU { amount: IOUNumber, issuer: AccountID, currency: Currency },
    /// An amount of a multi-purpose token: a magnitude, a sign and the issuance.
    MPT { num_units: u64, is_positive: bool, mpt_id: MptId },
}

/// The signed number of drops that an XRP word stands for.
pub open spec fn xrp_drops(word: u64) -> i64 {
    let magnitude = word & XRP_MAGNITUDE_MASK;
    if word & XRP_POSITIVE_BIT != 0 {
        magnitude as i64
    } else {
        (-(magnitude as int)) as i64
    }
}

/// The word that an XRP amount of `num_drops` is written as.
pub open spec fn xrp_word(num_drops: i64) -> u64 {
    if num_drops >= 0 {
        (num_drops as u64) | XRP_POSITIVE_BIT
    } else {
        (-(num_drops as int)) as u64
    }
}

/// `n` zero bytes.
pub open spec fn zeros(n: nat) -> Seq<u8> {
    Seq::new(n, |i: int| 0u8)
}

/// The amount that the 48 serialized bytes `b` stand for.
pub open spec fn spec_amount_from_bytes(b: Seq<u8>) -> Amount {
    if b[0] & IOU_FLAG != 0 {
        Amount::IOU {
            amount: IOUNumber(array_of::<8>(b.subrange(0, 8))),
            currency: Currency(array_of::<20>(b.subrange(8, 28))),
            issuer: AccountID(array_of::<20>(b.subrange(28, 48))),
        }
    } else if b[0] & MPT_FLAG != 0 {
        Amount::MPT {
            num_units: u64_from_be(b.subrange(1, 9)),
            is_positive: b[0] & POSITIVE_FLAG != 0,
            mpt_id: MptId(array_of::<24>(b.subrange(9, 33))),
        }
    } else {
        Amount::XRP { num_drops: xrp_drops(u64_from_be(b.subrange(0, 8))) }
    }
}

impl Amount {
    /// The 48 serialized bytes of the amount, zero-padded after the value.
    pub open spec fn spec_stamount_bytes(self) -> Seq<u8> {
        match self {
            Amount::XRP { num_drops } => u64_be(xrp_word(num_drops)) + zeros(40),
            Amount::IOU { amount, issuer, currency } => amount.0@ + currency.0@ + issuer.0@,
            Amount::MPT { num_units, is_positive, mpt_id } => seq![
                if is_positive {
                    MPT_POSITIVE_LEAD
                } else {
                    MPT_NEGATIVE_LEAD
                },
            ] + u64_be(num_units) + mpt_id.0@ + zeros(15),
        }
    }

    /// Whether reading back the serialized bytes gives this amount: an XRP amount below 2^61
    /// drops in magnitude (the largest possible amount, `MAX_DROPS`, is far below), an issued
    /// currency whose value has its leading bit set (as every serialized one has), any token.
    pub open spec fn spec_round_trips(self) -> bool {
        match self {
            Amount::XRP { num_drops } => -0x2000_0000_0000_0000 < num_drops < 0x2000_0000_0000_0000,
            Amount::IOU { amount, .. } => amount.0@[0] & IOU_FLAG != 0,
            Amount::MPT { .. } => true,
        }
    }

    /// Serializes the amount into a 48-byte buffer and returns it with the number of bytes that
    /// make up the amount, which is always the whole buffer.
    pub fn to_stamount_bytes(&self) -> (r: ([u8; 48], usize))
        ensures
            r.0@ == self.spec_stamount_bytes(),
            r.1 == AMOUNT_SIZE,
    {
        let mut out = [0u8; 48];
        match self {
            Amount::XRP { num_drops } => {
                let d = *num_drops;
                let word: u64 = if d >= 0 {
                    (d as u64) | XRP_POSITIVE_BIT
                } else {
                    (-(d as i128)) as u64
                };
                let be = u64_to_be_bytes(word);
                write_prefix(&mut out, 0, &be);
                proof {
                    assert(word == xrp_word(d));
                }
                assert(out@ =~= u64_be(xrp_word(d)) + zeros(40));
            },
            Amount::IOU { amount, issuer, currency } => {
                write_prefix(&mut out, 0, &amount.0);
                write_prefix(&mut out, 8, &currency.0);
                write_prefix(&mut out, 28, &issuer.0);
                assert(out@ =~= amount.0@ + currency.0@ + issuer.0@);
            },
            Amount::MPT { num_units, is_positive, mpt_id } => {
                out[0] = if *is_positive {
                    MPT_POSITIVE_LEAD
                } else {
                    MPT_NEGATIVE_LEAD
                };
                let be = u64_to_be_bytes(*num_units);
                write_prefix(&mut out, 1, &be);
                write_prefix(&mut out, 9, &mpt_id.0);
                assert(out@ =~= self.spec_stamount_bytes());
            },
        }
        (out, AMOUNT_SIZE)
    }
}

/// Copies the bytes of `src` into `dst` at `start`, leaving the rest of `dst` as it was.
fn write_prefix<const N: usize, const M: usize>(dst: &mut [u8; N], start: usize, src: &[u8; M])
    requires
        start + M <= N,
    ensures
        final(dst)@.len() == N,
        forall|j: int| 0 <= j < start ==> final(dst)@[j] == old(dst)@[j],
        forall|j: int| 0 <= j < M ==> final(dst)@[start + j] == src@[j],
        forall|j: int| start + M <= j < N ==> final(dst)@[j] == old(dst)@[j],
{
    let mut i: usize = 0;
    while i < M
        invariant
            i <= M,
            start + M <= N,
            dst@.len() == N,
            forall|j: int| 0 <= j < start ==> dst@[j] == old(dst)@[j],
            forall|j: int| 0 <= j < i ==> dst@[start + j] == src@[j],
            forall|j: int| start + i <= j < N ==> dst@[j] == old(dst)@[j],
        decreases M - i,
    {
        dst[start + i] = src[i];
        i = i + 1;
    }
}

/// The big-endian bytes of `x`.
pub fn u64_to_be_bytes(x: u64) -> (r: [u8; 8])
    ensures
        r@ == u64_be(x),
{
    let r = [
        ((x >> 56u64) & 0xff) as u8,
        ((x >> 48u64) & 0xff) as u8,
        ((x >> 40u64) & 0xff) as u8,
        ((x >> 32u64) & 0xff) as u8,
        ((x >> 24u64) & 0xff) as u8,
        ((x >> 16u64) & 0xff) as u8,
        ((x >> 8u64) & 0xff) as u8,
        (x & 0xff) as u8,
    ];
    assert(r@ =~= u64_be(x));
    r
}

/// The 64-bit value whose big-endian bytes start at `start` in `buf`.
fn read_u64_be<const N: usize>(buf: &[u8; N], start: usize) -> (r: u64)
    requires
        start + 8 <= N,
    ensures
        r == u64_from_be(buf@.subrange(start as int, start + 8)),
{
    let s = Ghost(buf@.subrange(start as int, start + 8));
    assert(s@[0] == buf@[start as int] && s@[7] == buf@[start + 7]);
    (((buf[start] as u64) << 56u64) | ((buf[start + 1] as u64) << 48u64) | ((buf[start + 2] as u64)
        << 40u64) | ((buf[start + 3] as u64) << 32u64) | ((buf[start + 4] as u64) << 24u64) | ((
    buf[start + 5] as u64) << 16u64) | ((buf[start + 6] as u64) << 8u64) | (buf[start
        + 7] as u64)) as u64
}

/// The signed number of drops that an XRP word stands for.
fn drops_of_word(word: u64) -> (r: i64)
    ensures
        r == xrp_drops(word),
{
    let magnitude = word & XRP_MAGNITUDE_MASK;
    assert(magnitude <= XRP_MAGNITUDE_MASK) by (bit_vector)
        requires
            magnitude == word & 0x3FFF_FFFF_FFFF_FFFFu64,
    ;
    if word & XRP_POSITIVE_BIT != 0 {
        magnitude as i64
    } else {
        -(magnitude as i64)
    }
}

impl FieldDecoder<48> for Amount {
    /// Any write that fits the buffer is an amount; the zero padding after a short write is read
    /// as part of it.
    open spec fn spec_decode(buf: [u8; 48], bytes_written: nat) -> Result<Amount, DecodeError> {
        if bytes_written > 48 {
            Err(DecodeError)
        } else {
            Ok(spec_amount_from_bytes(buf@))
        }
    }

    fn decode(buf: &[u8; 48], bytes_written: usize) -> (r: Result<Amount, DecodeError>) {
        if bytes_written > 48 {
            return Err(DecodeError);
        }
        Ok(amount_from_bytes(buf))
    }
}

impl FromCurrentTx<48> for Amount {

}

impl FromLedger<48> for Amount {

}

/// Reads the amount that the 48 serialized bytes `buf` stand for.
pub fn amount_from_bytes(buf: &[u8; 48]) -> (r: Amount)
    ensures
        r == spec_amount_from_bytes(buf@),
{
    let lead = buf[0];
    if lead & IOU_FLAG != 0 {
        let amount: [u8; 8] = sub_array(buf, 0);
        let currency: [u8; 20] = sub_array(buf, 8);
        let issuer: [u8; 20] = sub_array(buf, 28);
        proof {
            lemma_array_of(amount);
            lemma_array_of(currency);
            lemma_array_of(issuer);
        }
        Amount::IOU {
            amount: IOUNumber(amount),
            issuer: AccountID(issuer),
            currency: Currency(currency),
        }
    } else if lead & MPT_FLAG != 0 {
        let num_units = read_u64_be(buf, 1);
        let id: [u8; 24] = sub_array(buf, 9);
        proof {
            lemma_array_of(id);
        }
        Amount::MPT { num_units, is_positive: lead & POSITIVE_FLAG != 0, mpt_id: MptId(id) }
    } else {
        let word = read_u64_be(buf, 0);
        Amount::XRP { num_drops: drops_of_word(word) }
    }
}

/// Serializing an amount and reading the bytes back gives the amount, for every amount that
/// can round-trip (see [`Amount::spec_round_trips`]).
pub proof fn lemma_amount_round_trip(a: Amount)
    requires
        a.spec_round_trips(),
    ensures
        a.spec_stamount_bytes().len() == AMOUNT_SIZE,
        spec_amount_from_bytes(a.spec_stamount_bytes()) == a,
{
    let b = a.spec_stamount_bytes();
    match a {
        Amount::XRP { num_drops } => {
            let w = xrp_word(num_drops);
            lemma_u64_be_roundtrip(w);
            assert(b.subrange(0, 8) =~= u64_be(w));
            assert(b[0] == u64_be(w)[0]);
            lemma_xrp_word(num_drops);
        },
        Amount::IOU { amount, issuer, currency } => {
            assert(b.subrange(0, 8) =~= amount.0@);
            assert(b.subrange(8, 28) =~= currency.0@);
            assert(b.subrange(28, 48) =~= issuer.0@);
            lemma_array_of(amount.0);
            lemma_array_of(currency.0);
            lemma_array_of(issuer.0);
        },
        Amount::MPT { num_units, is_positive, mpt_id } => {
            lemma_u64_be_roundtrip(num_units);
            assert(b.subrange(1, 9) =~= u64_be(num_units));
            assert(b.subrange(9, 33) =~= mpt_id.0@);
            lemma_array_of(mpt_id.0);
            let lead: u8 = if is_positive {
                MPT_POSITIVE_LEAD
            } else {
                MPT_NEGATIVE_LEAD
            };
            assert(b[0] == lead);
            assert(lead & 0x80u8 == 0 && lead & 0x20u8 != 0 && ((lead & 0x40u8 != 0) == (lead
                == 0x60u8))) by (bit_vector)
                requires
                    lead == 0x60u8 || lead == 0x20u8,
            ;
        },
    }
}

/// The word of an XRP amount below 2^61 drops in magnitude has neither the issued-currency nor
/// the token bit in its leading byte, and reads back as the amount.
proof fn lemma_xrp_word(d: i64)
    requires
        -0x2000_0000_0000_0000 < d < 0x2000_0000_0000_0000,
    ensures
        ((xrp_word(d) >> 56u64) & 0xff) as u8 & IOU_FLAG == 0,
        ((xrp_word(d) >> 56u64) & 0xff) as u8 & MPT_FLAG == 0,
        xrp_drops(xrp_word(d)) == d,
{
    let w = xrp_word(d);
    if d >= 0 {
        let m = d as u64;
        assert(w == m | 0x4000_0000_0000_0000u64);
        assert(((w >> 56u64) & 0xff) as u8 & 0x80u8 == 0 && ((w >> 56u64) & 0xff) as u8 & 0x20u8
            == 0 && w & 0x4000_0000_0000_0000u64 != 0 && w & 0x3FFF_FFFF_FFFF_FFFFu64 == m)
            by (bit_vector)
            requires
                m < 0x2000_0000_0000_0000u64,
                w == m | 0x4000_0000_0000_0000u64,
        ;
    } else {
        let m = (-(d as int)) as u64;
        assert(m == -(d as int));
        assert(((w >> 56u64) & 0xff) as u8 & 0x80u8 == 0 && ((w >> 56u64) & 0xff) as u8 & 0x20u8
            == 0 && w & 0x4000_0000_0000_0000u64 == 0 && w & 0x3FFF_FFFF_FFFF_FFFFu64 == m)
            by (bit_vector)
            requires
                m < 0x2000_0000_0000_0000u64,
                w == m,
        ;
    }
}

/// The wire layout of a serialized amount (`STAmount`), written and read alike. An issued
/// currency is its 8-byte value, then its 20-byte currency code, then its 20-byte issuer, and
/// 48 bytes with the issued-currency bit set read with the value from bytes 0..8, the currency
/// from bytes 8..28 and the issuer from bytes 28..48. A token is its lead byte, its 8 big-endian
/// units at bytes 1..9 and its 24-byte issuance identifier at bytes 9..33. XRP is its 8-byte word.
pub proof fn lemma_amount_wire_layout(a: Amount, b: [u8; 48])
    ensures
        a.spec_stamount_bytes().len() == AMOUNT_SIZE,
        a matches Amount::IOU { amount, issuer, currency } ==> a.spec_stamount_bytes().subrange(
            0,
            8,
        ) == amount.0@ && a.spec_stamount_bytes().subrange(8, 28) == currency.0@
            && a.spec_stamount_bytes().subrange(28, 48) == issuer.0@,
        a matches Amount::MPT { num_units, mpt_id, .. } ==> a.spec_stamount_bytes().subrange(1, 9)
            == u64_be(num_units) && a.spec_stamount_bytes().subrange(9, 33) == mpt_id.0@,
        a matches Amount::XRP { num_drops } ==> a.spec_stamount_bytes().subrange(0, 8) == u64_be(
            xrp_word(num_drops),
        ),
        b@[0] & IOU_FLAG != 0 ==> (spec_amount_from_bytes(b@) matches Amount::IOU {
            amount,
            issuer,
            currency,
        } && amount.0@ == b@.subrange(0, 8) && currency.0@ == b@.subrange(8, 28) && issuer.0@
            == b@.subrange(28, 48)),
        b@[0] & IOU_FLAG == 0 && b@[0] & MPT_FLAG != 0 ==> (spec_amount_from_bytes(b@) matches Amount::MPT {
            num_units,
            mpt_id,
            ..
        } && u64_be(num_units) == b@.subrange(1, 9) && mpt_id.0@ == b@.subrange(9, 33)),
{
    lemma_array_of_seq::<8>(b@.subrange(0, 8));
    lemma_array_of_seq::<20>(b@.subrange(8, 28));
    lemma_array_of_seq::<20>(b@.subrange(28, 48));
    lemma_array_of_seq::<24>(b@.subrange(9, 33));
    lemma_u64_from_be_roundtrip(b@.subrange(1, 9));
    let s = a.spec_stamount_bytes();
    match a {
        Amount::XRP { num_drops } => {
            lemma_u64_be_roundtrip(xrp_word(num_drops));
            assert(s.subrange(0, 8) =~= u64_be(xrp_word(num_drops)));
        },
        Amount::IOU { amount, issuer, currency } => {
            assert(s.subrange(0, 8) =~= amount.0@);
            assert(s.subrange(8, 28) =~= currency.0@);
            assert(s.subrange(28, 48) =~= issuer.0@);
        },
        Amount::MPT { num_units, is_positive, mpt_id } => {
            lemma_u64_be_roundtrip(num_units);
            assert(s.subrange(1, 9) =~= u64_be(num_units));
            assert(s.subrange(9, 33) =~= mpt_id.0@);
        },
    }
}

} // verus!
