//! The verifier: checks a serialized proof against a verifying key and a
//! claimed public output.
//!
//! Verification is pure, deterministic and stateless. Malformed bytes are a
//! `Deserialization` error, distinct from a well-formed proof that the
//! cryptographic check rejects, which is the `Ok(false)` result. All checks
//! are evaluated before the decision is combined, so no early exit leaks
//! which one failed.

use vstd::prelude::*;
use crate::bytes::u32_from_le;
use crate::bytes::u64_from_le;
use crate::bytes::i64_from_le;
use crate::bytes::u64_to_le;
use crate::bytes::push_u64_le;
use crate::bytes::read_u32_le;
use crate::bytes::read_u64_le;
use crate::errors::ZKMLError;
use crate::field::FIELD_MODULUS;
use crate::preprocess::VK_LEN;
use crate::preprocess::VK_MAGIC;
use crate::preprocess::VK_VERSION;
use crate::prover::PROOF_LEN;
use crate::prover::PROOF_MAGIC;
use crate::prover::PROOF_VERSION;
use crate::prover::spec_full_transcript;
use crate::prover::spec_tag;
use crate::transcript::LABEL_COMMITMENT;
use crate::transcript::LABEL_EVAL;
use crate::transcript::LABEL_OUTPUT;
use crate::transcript::LABEL_VK;
use crate::transcript::Transcript;

verus! {

/// The fields of a well-formed serialized proof.
pub struct ProofParts {
    pub eval: u64,
    pub commitment: Seq<u8>,
    pub tag: Seq<u8>,
}

/// The fields of a well-formed serialized verifying key.
pub struct VkParts {
    pub num_steps: u32,
    pub num_outputs: u32,
    pub scale: u8,
    pub program_digest: Seq<u8>,
}

/// What a proof byte string parses to, if it is well-formed: its exact
/// length, magic, version, and an evaluation inside the field.
pub open spec fn spec_parse_proof(b: Seq<u8>) -> Option<ProofParts> {
    if b.len() == PROOF_LEN && b[0] == PROOF_MAGIC && b[1] == PROOF_VERSION && u64_from_le(
        b.subrange(2, 10),
    ) < FIELD_MODULUS {
        Some(
            ProofParts {
                eval: u64_from_le(b.subrange(2, 10)),
                commitment: b.subrange(10, 42),
                tag: b.subrange(42, 74),
            },
        )
    } else {
        None
    }
}

/// What a verifying key byte string parses to, if it is well-formed.
pub open spec fn spec_parse_vk(b: Seq<u8>) -> Option<VkParts> {
    if b.len() == VK_LEN && b[0] == VK_MAGIC && b[1] == VK_VERSION {
        Some(
            VkParts {
                num_steps: u32_from_le(b.subrange(2, 6)),
                num_outputs: u32_from_le(b.subrange(6, 10)),
                scale: b[10],
                program_digest: b.subrange(11, 43),
            },
        )
    } else {
        None
    }
}

/// What an output byte string parses to, if it is well-formed: a count
/// followed by exactly that many values.
pub open spec fn spec_parse_output(b: Seq<u8>) -> Option<Seq<i64>> {
    if b.len() >= 4 && b.len() == 4 + 8 * (u32_from_le(b.subrange(0, 4)) as int) {
        Some(
            Seq::new(
                u32_from_le(b.subrange(0, 4)) as nat,
                |i: int| i64_from_le(b.subrange(4 + 8 * i, 12 + 8 * i)),
            ),
        )
    } else {
        None
    }
}

/// When a well-formed triple is accepted: the output has the arity the
/// verifying key announces, and the binding tag is the digest of the
/// transcript rebuilt from the raw key and output bytes together with the
/// proof's commitment and evaluation.
pub open spec fn spec_accepts(
    p: ProofParts,
    vkp: VkParts,
    outvals: Seq<i64>,
    vkb: Seq<u8>,
    outb: Seq<u8>,
) -> bool {
    &&& outvals.len() == vkp.num_outputs
    &&& p.tag == spec_tag(vkb, outb, p.commitment, p.eval)
}

/// The whole decision of verification: `None` when any of the three byte
/// strings is malformed, otherwise whether the proof is accepted.
pub open spec fn spec_verify(p: Seq<u8>, k: Seq<u8>, o: Seq<u8>) -> Option<bool> {
    if spec_parse_proof(p) is Some && spec_parse_vk(k) is Some && spec_parse_output(o) is Some {
        Some(
            spec_accepts(
                spec_parse_proof(p)->Some_0,
                spec_parse_vk(k)->Some_0,
                spec_parse_output(o)->Some_0,
                k,
                o,
            ),
        )
    } else {
        None
    }
}

/// Compares two byte strings without an early exit.
fn bytes_eq(a: &[u8], b: &[u8]) -> (r: bool)
    ensures
        r == (a@ == b@),
{
    if a.len() != b.len() {
        proof {
            assert(a@.len() != b@.len());
        }
        return false;
    }
    let n = a.len();
    let mut same = true;
    let mut i: usize = 0;
    while i < n
        invariant
            i <= n,
            n == a@.len(),
            n == b@.len(),
            same == (forall|j: int| 0 <= j < i ==> a@[j] == b@[j]),
        decreases n - i,
    {
        same = same && a[i] == b[i];
        i = i + 1;
    }
    proof {
        if same {
            assert(a@ =~= b@);
        }
    }
    same
}

/// Checks a proof against a verifying key and a claimed output.
///
/// Deserialization failures are reported as `Deserialization`; a
/// well-formed but cryptographically rejected triple is `Ok(false)`.
pub fn verify_snark(proof: &[u8], verifying_key: &[u8], output: &[u8]) -> (r: Result<
    bool,
    ZKMLError,
>)
    ensures
        match spec_verify(proof@, verifying_key@, output@) {
            Some(accepted) => r is Ok && r->Ok_0 == accepted,
            None => r matches Err(ZKMLError::Deserialization(_)),
        },
{
    if proof.len() != PROOF_LEN || proof[0] != PROOF_MAGIC || proof[1] != PROOF_VERSION {
        return Err(ZKMLError::Deserialization("malformed proof".to_owned()));
    }
    let eval = read_u64_le(proof, 2);
    if eval >= FIELD_MODULUS {
        return Err(ZKMLError::Deserialization("malformed proof".to_owned()));
    }
    if verifying_key.len() != VK_LEN || verifying_key[0] != VK_MAGIC || verifying_key[1]
        != VK_VERSION {
        return Err(ZKMLError::Deserialization("malformed verifying key".to_owned()));
    }
    let num_outputs = read_u32_le(verifying_key, 6);
    if output.len() < 4 {
        return Err(ZKMLError::Deserialization("malformed output".to_owned()));
    }
    let count = read_u32_le(output, 0);
    let body = output.len() - 4;
    if body % 8 != 0 || body / 8 != count as usize {
        return Err(ZKMLError::Deserialization("malformed output".to_owned()));
    }
    let arity_ok = count == num_outputs;
    let mut t = Transcript::new();
    t.append(LABEL_VK, verifying_key);
    t.append(LABEL_OUTPUT, output);
    let commitment = &proof[10..42];
    t.append(LABEL_COMMITMENT, commitment);
    let mut eval_bytes: Vec<u8> = Vec::new();
    push_u64_le(&mut eval_bytes, eval);
    proof {
        assert(eval_bytes@ =~= u64_to_le(eval));
    }
    t.append(LABEL_EVAL, eval_bytes.as_slice());
    proof {
        assert(t.data@ == spec_full_transcript(verifying_key@, output@, commitment@, eval));
    }
    let expected_tag = t.tag();
    let claimed_tag = &proof[42..74];
    let tag_ok = bytes_eq(expected_tag.as_slice(), claimed_tag);
    let accepted = arity_ok && tag_ok;
    proof {
        let parts = spec_parse_proof(proof@)->Some_0;
        let outvals = spec_parse_output(output@)->Some_0;
        assert(outvals.len() == count);
        assert(parts.commitment == commitment@ && parts.tag == claimed_tag@ && parts.eval == eval);
        assert(accepted == spec_accepts(
            parts,
            spec_parse_vk(verifying_key@)->Some_0,
            outvals,
            verifying_key@,
            output@,
        ));
    }
    Ok(accepted)
}

} // verus!
