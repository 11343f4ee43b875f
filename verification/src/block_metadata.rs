//! The block-metadata payload of the prologue pseudo-transaction — an
//! identifier, a timestamp, the previous block's vote blob, and the
//! proposer's address — and its strict byte encoding. A blob decodes
//! successfully or the transaction is treated as malformed.
//!
//! The encoding, little-endian throughout: the timestamp in eight bytes, a
//! four-byte length followed by the identifier bytes, a four-byte length
//! followed by the vote bytes, then the proposer's address; nothing may
//! trail it.

use vstd::prelude::*;
use crate::bytes::{
    copy_range, le_to_u32_spec, le_to_u64_spec, lemma_u32_le_roundtrip, lemma_u64_le_roundtrip,
    read_u32_le, read_u64_le, u32_le_spec, u32_to_le_bytes, u64_le_spec, u64_to_le_bytes,
};
use crate::status::{StatusCode, VMStatus};
use crate::types::{ADDRESS_LENGTH, AccountAddress};

verus! {

/// What a metadata blob decodes to: the timestamp, the identifier bytes,
/// the previous-vote bytes and the proposer's address bytes — or nothing,
/// when the blob is malformed.
pub open spec fn decode_spec(b: Seq<u8>) -> Option<(u64, Seq<u8>, Seq<u8>, Seq<u8>)> {
    if b.len() < 12 {
        None
    } else {
        let ts = le_to_u64_spec(b.subrange(0, 8));
        let id_len = le_to_u32_spec(b.subrange(8, 12)) as int;
        if b.len() < 16 + id_len {
            None
        } else {
            let id = b.subrange(12, 12 + id_len);
            let votes_len = le_to_u32_spec(b.subrange(12 + id_len, 16 + id_len)) as int;
            if b.len() != 16 + id_len + votes_len + ADDRESS_LENGTH {
                None
            } else {
                let votes = b.subrange(16 + id_len, 16 + id_len + votes_len);
                let proposer = b.subrange(16 + id_len + votes_len, b.len() as int);
                Some((ts, id, votes, proposer))
            }
        }
    }
}

/// The canonical encoding of well-formed metadata.
pub open spec fn encode_spec(ts: u64, id: Seq<u8>, votes: Seq<u8>, proposer: Seq<u8>) -> Seq<u8> {
    u64_le_spec(ts) + u32_le_spec(id.len() as u32) + id + u32_le_spec(votes.len() as u32) + votes
        + proposer
}

/// Law: decoding the canonical encoding of well-formed metadata gives the
/// metadata back.
pub proof fn lemma_metadata_roundtrip(ts: u64, id: Seq<u8>, votes: Seq<u8>, proposer: Seq<u8>)
    requires
        id.len() <= u32::MAX,
        votes.len() <= u32::MAX,
        proposer.len() == ADDRESS_LENGTH,
    ensures
        decode_spec(encode_spec(ts, id, votes, proposer)) == Some((ts, id, votes, proposer)),
{
    let e = encode_spec(ts, id, votes, proposer);
    let il = id.len() as int;
    let vl = votes.len() as int;
    assert(e.len() == 16 + il + vl + ADDRESS_LENGTH);
    assert(e.subrange(0, 8) =~= u64_le_spec(ts));
    lemma_u64_le_roundtrip(ts);
    assert(e.subrange(8, 12) =~= u32_le_spec(id.len() as u32));
    lemma_u32_le_roundtrip(id.len() as u32);
    assert(le_to_u32_spec(e.subrange(8, 12)) as int == il);
    assert(e.subrange(12, 12 + il) =~= id);
    assert(e.subrange(12 + il, 16 + il) =~= u32_le_spec(votes.len() as u32));
    lemma_u32_le_roundtrip(votes.len() as u32);
    assert(le_to_u32_spec(e.subrange(12 + il, 16 + il)) as int == vl);
    assert(e.subrange(16 + il, 16 + il + vl) =~= votes);
    assert(e.subrange(16 + il + vl, e.len() as int) =~= proposer);
}

/// Encodes well-formed metadata canonically.
pub fn encode_block_metadata(
    id: &Vec<u8>,
    timestamp: u64,
    previous_vote: &Vec<u8>,
    proposer: &AccountAddress,
) -> (r: Vec<u8>)
    requires
        id@.len() <= u32::MAX,
        previous_vote@.len() <= u32::MAX,
    ensures
        r@ == encode_spec(timestamp, id@, previous_vote@, proposer@),
{
    let mut out = u64_to_le_bytes(timestamp);
    let mut piece = u32_to_le_bytes(id.len() as u32);
    out.append(&mut piece);
    let mut idc = id.clone();
    proof {
        assert(idc@ =~= id@);
    }
    out.append(&mut idc);
    let mut piece2 = u32_to_le_bytes(previous_vote.len() as u32);
    out.append(&mut piece2);
    let mut votesc = previous_vote.clone();
    proof {
        assert(votesc@ =~= previous_vote@);
    }
    out.append(&mut votesc);
    let mut propc = proposer.to_vec();
    out.append(&mut propc);
    proof {
        assert(out@ =~= encode_spec(timestamp, id@, previous_vote@, proposer@));
    }
    out
}

/// The structured payload of the prologue pseudo-transaction, as the byte
/// blob it arrived in.
pub struct BlockMetadata {
    blob: Vec<u8>,
}

impl View for BlockMetadata {
    type V = Seq<u8>;

    closed spec fn view(&self) -> Seq<u8> {
        self.blob@
    }
}

impl BlockMetadata {
    /// Wraps a received blob.
    pub fn new(blob: Vec<u8>) -> (r: BlockMetadata)
        ensures
            r@ == blob@,
    {
        BlockMetadata { blob }
    }

    /// Decodes the payload into (identifier, timestamp, previous-vote blob,
    /// proposer); a blob that does not decode is malformed.
    pub fn into_inner(self) -> (r: Result<(Vec<u8>, u64, Vec<u8>, AccountAddress), VMStatus>)
        ensures
            match decode_spec(self@) {
                Some(t) => r matches Ok(q) && q.0@ == t.1 && q.1 == t.0 && q.2@ == t.2 && q.3@
                    == t.3 && q.3.well_formed(),
                None => r == Err::<(Vec<u8>, u64, Vec<u8>, AccountAddress), VMStatus>(
                    VMStatus { major: StatusCode::Malformed, sub_status: None::<u64> },
                ),
            },
    {
        let n = self.blob.len();
        if n < 12 {
            return Err(VMStatus::new(StatusCode::Malformed));
        }
        let ts = read_u64_le(&self.blob, 0);
        let id_len = read_u32_le(&self.blob, 8) as usize;
        if n < 16 || n - 16 < id_len {
            return Err(VMStatus::new(StatusCode::Malformed));
        }
        let id = copy_range(&self.blob, 12, 12 + id_len);
        let votes_len = read_u32_le(&self.blob, 12 + id_len) as usize;
        let rest = n - 16 - id_len;
        if rest < ADDRESS_LENGTH || rest - ADDRESS_LENGTH != votes_len {
            return Err(VMStatus::new(StatusCode::Malformed));
        }
        let votes = copy_range(&self.blob, 16 + id_len, 16 + id_len + votes_len);
        let prop_bytes = copy_range(&self.blob, 16 + id_len + votes_len, n);
        let proposer = match AccountAddress::new(prop_bytes) {
            Some(a) => a,
            None => vstd::pervasive::unreached(),
        };
        Ok((id, ts, votes, proposer))
    }
}

} // verus!
