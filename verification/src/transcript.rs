//! The Fiat-Shamir transcript: a running byte string of length-framed
//! protocol messages from which challenges are derived deterministically.

use vstd::prelude::*;
use crate::bytes::u64_to_le;
use crate::bytes::u64_from_le;
use crate::bytes::push_u64_le;
use crate::bytes::read_u64_le;
use crate::digest::digest_of;
use crate::digest::digest32;
use crate::field::FIELD_MODULUS;

verus! {

/// The domain separator every transcript starts with.
pub const TRANSCRIPT_DOMAIN: u8 = 0xF5;

/// Label of the verifying key message.
pub const LABEL_VK: u8 = 1;

/// Label of the public output message.
pub const LABEL_OUTPUT: u8 = 2;

/// Label of the trace commitment message.
pub const LABEL_COMMITMENT: u8 = 3;

/// Label of the evaluation message.
pub const LABEL_EVAL: u8 = 4;

/// One framed transcript message: its label, its length, its bytes.
pub open spec fn spec_frame(label: u8, b: Seq<u8>) -> Seq<u8> {
    seq![label] + u64_to_le(b.len() as u64) + b
}

/// The challenge scalar a transcript state yields: the low 64 bits of its
/// digest, reduced into the field.
pub open spec fn spec_challenge_of(data: Seq<u8>) -> u64 {
    ((u64_from_le(digest_of(data).subrange(0, 8)) as int) % (FIELD_MODULUS as int)) as u64
}

/// A Fiat-Shamir transcript. Each proof starts a fresh one; no state is
/// ever reused across proofs.
pub struct Transcript {
    pub data: Vec<u8>,
}

impl Transcript {
    /// Starts a fresh transcript holding only the domain separator.
    pub fn new() -> (r: Self)
        ensures
            r.data@ == seq![TRANSCRIPT_DOMAIN],
    {
        let mut data: Vec<u8> = Vec::new();
        data.push(TRANSCRIPT_DOMAIN);
        proof {
            assert(data@ =~= seq![TRANSCRIPT_DOMAIN]);
        }
        Transcript { data }
    }

    /// Appends one length-framed message.
    pub fn append(&mut self, label: u8, bytes: &[u8])
        ensures
            final(self).data@ == old(self).data@ + spec_frame(label, bytes@),
    {
        self.data.push(label);
        push_u64_le(&mut self.data, bytes.len() as u64);
        self.data.extend_from_slice(bytes);
        proof {
            assert(final(self).data@ =~= old(self).data@ + spec_frame(label, bytes@));
        }
    }

    /// Derives the challenge scalar of the current state.
    pub fn challenge_scalar(&self) -> (r: u64)
        ensures
            r == spec_challenge_of(self.data@),
            r < FIELD_MODULUS,
    {
        let d = digest32(self.data.as_slice());
        let n = read_u64_le(d.as_slice(), 0);
        n % FIELD_MODULUS
    }

    /// Digests the whole current state into a binding tag.
    pub fn tag(&self) -> (r: Vec<u8>)
        ensures
            r@ == digest_of(self.data@),
            r@.len() == 32,
    {
        digest32(self.data.as_slice())
    }
}

} // verus!
