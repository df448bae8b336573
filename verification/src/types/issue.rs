//! Assets: XRP, an issued currency, or a multi-purpose token.

use vstd::prelude::*;
use crate::fields::decoder::{FieldDecoder, FromCurrentTx, FromLedger};
use crate::types::account_id::AccountID;
use crate::types::currency::Currency;
use crate::types::decode_error::DecodeError;
use crate::types::mpt_id::MptId;
use crate::bytes::u32_be;
use crate::types::uint::{array_of, lemma_array_of, lemma_array_of_seq, sub_array};

verus! {

broadcast use vstd::array::group_array_axioms;

/// The size of the largest serialized issue (an issued currency) in bytes.
pub const ISSUE_BUFFER_SIZE: usize = 40;

/// The XRP asset.
#[derive(Debug, Clone, Copy, PartialEq, Eq, Structural)]
pub struct XrpIssue {}

/// An issued currency: a currency code and the account that issues it.
#[derive(Debug, Clone, Copy, PartialEq, Eq)]
pub struct IouIssue {
    pub issuer: AccountID,
    pub currency: Currency,
}

impl IouIssue {
    pub open spec fn spec_issuer(self) -> AccountID {
        self.issuer
    }

    pub open spec fn spec_currency(self) -> Currency {
        self.currency
    }

    /// The issued currency `currency` of `issuer`.
    pub fn new(issuer: AccountID, currency: Currency) -> (r: IouIssue)
        ensures
            r.spec_issuer() == issuer,
            r.spec_currency() == currency,
    {
        IouIssue { issuer, currency }
    }

    /// The issuing account.
    pub fn issuer(&self) -> (r: &AccountID)
        ensures
            *r == self.spec_issuer(),
    {
        &self.issuer
    }

    /// The currency code.
    pub fn currency(&self) -> (r: &Currency)
        ensures
            *r == self.spec_currency(),
    {
        &self.currency
    }
}

/// A multi-purpose token, named by its issuance.
#[derive(Debug, Clone, Copy, PartialEq, Eq)]
pub struct MptIssue {
    pub mpt_id: MptId,
}

impl MptIssue {
    pub open spec fn spec_mpt_id(self) -> MptId {
        self.mpt_id
    }

    /// The token of issuance `mpt_id`.
    pub fn new(mpt_id: MptId) -> (r: MptIssue)
        ensures
            r.spec_mpt_id() == mpt_id,
    {
        MptIssue { mpt_id }
    }

    /// The issuance identifier.
    pub fn mpt_id(&self) -> (r: &MptId)
        ensures
            *r == self.spec_mpt_id(),
    {
        &self.mpt_id
    }
}

/// An asset.
#[derive(Debug, Clone, Copy, PartialEq, Eq)]
pub enum Issue {
    XRP(XrpIssue),
    IOU(IouIssue),
    MPT(MptIssue),
}

impl Issue {
    /// The serialized issue: 20 zero bytes for XRP, the currency code then the issuer for an
    /// issued currency, the issuance identifier for a token.
    pub open spec fn spec_bytes(self) -> Seq<u8> {
        match self {
            Issue::XRP(_) => Seq::new(20, |i: int| 0u8),
            Issue::IOU(iou) => iou.currency.0@ + iou.issuer.0@,
            Issue::MPT(mpt) => mpt.mpt_id.0@,
        }
    }

    /// Serializes the issue.
    pub fn as_bytes(&self) -> (r: Vec<u8>)
        ensures
            r@ == self.spec_bytes(),
    {
        let mut r: Vec<u8> = Vec::new();
        match self {
            Issue::XRP(_) => {
                let mut i: usize = 0;
                while i < 20
                    invariant
                        i <= 20,
                        r@ == Seq::new(i as nat, |j: int| 0u8),
                    decreases 20 - i,
                {
                    r.push(0u8);
                    i = i + 1;
                    assert(r@ =~= Seq::new(i as nat, |j: int| 0u8));
                }
            },
            Issue::IOU(iou) => {
                push_all(&mut r, &iou.currency.0);
                push_all(&mut r, &iou.issuer.0);
            },
            Issue::MPT(mpt) => {
                push_all(&mut r, &mpt.mpt_id.0);
            },
        }
        r
    }
}

/// Appends the bytes of `src` to `dst`.
fn push_all(dst: &mut Vec<u8>, src: &[u8])
    ensures
        final(dst)@ == old(dst)@ + src@,
{
    let mut i: usize = 0;
    while i < src.len()
        invariant
            i <= src@.len(),
            dst@ == old(dst)@ + src@.subrange(0, i as int),
        decreases src@.len() - i,
    {
        dst.push(src[i]);
        i = i + 1;
        assert(dst@ =~= old(dst)@ + src@.subrange(0, i as int));
    }
    assert(src@.subrange(0, src@.len() as int) =~= src@);
}

impl FieldDecoder<40> for Issue {
    /// A 20-byte write is XRP, a 40-byte write an issued currency (currency code, then issuer),
    /// a 24-byte write a token issuance; any other length is not an issue.
    open spec fn spec_decode(buf: [u8; 40], bytes_written: nat) -> Result<Issue, DecodeError> {
        if bytes_written == 20 {
            Ok(Issue::XRP(XrpIssue {  }))
        } else if bytes_written == 40 {
            Ok(
                Issue::IOU(
                    IouIssue {
                        currency: Currency(array_of::<20>(buf@.subrange(0, 20))),
                        issuer: AccountID(array_of::<20>(buf@.subrange(20, 40))),
                    },
                ),
            )
        } else if bytes_written == 24 {
            Ok(Issue::MPT(MptIssue { mpt_id: MptId(array_of::<24>(buf@.subrange(0, 24))) }))
        } else {
            Err(DecodeError)
        }
    }

    fn decode(buf: &[u8; 40], bytes_written: usize) -> (r: Result<Issue, DecodeError>) {
        if bytes_written == 20 {
            Ok(Issue::XRP(XrpIssue {  }))
        } else if bytes_written == 40 {
            let currency: [u8; 20] = sub_array(buf, 0);
            let issuer: [u8; 20] = sub_array(buf, 20);
            proof {
                lemma_array_of(currency);
                lemma_array_of(issuer);
            }
            Ok(Issue::IOU(IouIssue { currency: Currency(currency), issuer: AccountID(issuer) }))
        } else if bytes_written == 24 {
            let id: [u8; 24] = sub_array(buf, 0);
            proof {
                lemma_array_of(id);
            }
            Ok(Issue::MPT(MptIssue { mpt_id: MptId(id) }))
        } else {
            Err(DecodeError)
        }
    }
}

impl FromCurrentTx<40> for Issue {

}

impl FromLedger<40> for Issue {

}

/// Decoding the serialization of an issue, written at the start of a zeroed buffer, gives the
/// issue back.
pub proof fn lemma_issue_roundtrip(issue: Issue, buf: [u8; 40])
    requires
        buf@.subrange(0, issue.spec_bytes().len() as int) == issue.spec_bytes(),
    ensures
        Issue::spec_decode(buf, issue.spec_bytes().len()) == Ok::<Issue, DecodeError>(issue),
{
    match issue {
        Issue::XRP(x) => {
        },
        Issue::IOU(iou) => {
            let b = issue.spec_bytes();
            assert(buf@.subrange(0, 20) =~= iou.currency.0@) by {
                assert(buf@.subrange(0, 20) =~= b.subrange(0, 20));
            }
            assert(buf@.subrange(20, 40) =~= iou.issuer.0@) by {
                assert(buf@.subrange(20, 40) =~= b.subrange(20, 40));
            }
            lemma_array_of(iou.currency.0);
            lemma_array_of(iou.issuer.0);
        },
        Issue::MPT(mpt) => {
            lemma_array_of(mpt.mpt_id.0);
        },
    }
}

/// The wire form of an issue, as handed to the host and as the host writes it: XRP is 20 zero
/// bytes; an issued currency is its 20-byte currency code followed by its 20-byte issuer; a
/// token is exactly its 24-byte issuance identifier, the big-endian issuance sequence followed by
/// the issuer. A write of each length reads back with the same parts in the same places.
pub proof fn lemma_issue_wire_layout(issue: Issue, buf: [u8; 40], sequence: u32, issuer: AccountID)
    ensures
        issue is XRP ==> issue.spec_bytes() == Seq::new(20, |i: int| 0u8),
        issue matches Issue::IOU(iou) ==> issue.spec_bytes().len() == 40
            && issue.spec_bytes().subrange(0, 20) == iou.currency.0@
            && issue.spec_bytes().subrange(20, 40) == iou.issuer.0@,
        issue matches Issue::MPT(mpt) ==> issue.spec_bytes() == mpt.mpt_id.0@,
        issue matches Issue::MPT(mpt) ==> (mpt.mpt_id.0@ == MptId::spec_new(sequence, issuer)
            ==> issue.spec_bytes() == u32_be(sequence) + issuer.0@),
        Issue::spec_decode(buf, 20) == Ok::<Issue, DecodeError>(Issue::XRP(XrpIssue {  })),
        Issue::spec_decode(buf, 40) matches Ok(Issue::IOU(iou)) && iou.currency.0@ == buf@.subrange(
            0,
            20,
        ) && iou.issuer.0@ == buf@.subrange(20, 40),
        Issue::spec_decode(buf, 24) matches Ok(Issue::MPT(mpt)) && mpt.mpt_id.0@ == buf@.subrange(
            0,
            24,
        ),
{
    lemma_array_of_seq::<20>(buf@.subrange(0, 20));
    lemma_array_of_seq::<20>(buf@.subrange(20, 40));
    lemma_array_of_seq::<24>(buf@.subrange(0, 24));
    if let Issue::IOU(iou) = issue {
        assert(issue.spec_bytes().subrange(0, 20) =~= iou.currency.0@);
        assert(issue.spec_bytes().subrange(20, 40) =~= iou.issuer.0@);
    }
}

} // verus!
