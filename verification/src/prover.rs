//! The prover: compresses an execution trace into a succinct argument bound
//! to the public output.
//!
//! The argument commits to the trace through a digest, derives a challenge
//! scalar from a transcript seeded with the verifying key, the output and
//! that commitment, evaluates the trace column at the challenge point, and
//! seals everything under a final transcript tag.

use vstd::prelude::*;
use crate::bytes::u64_to_le;
use crate::bytes::push_u64_le;
use crate::digest::digest_of;
use crate::digest::digest32;
use crate::digest::lemma_digest_len;
use crate::errors::ZKMLError;
use crate::field::spec_poly_eval;
use crate::field::spec_to_field;
use crate::field::poly_eval;
use crate::field::to_field;
use crate::preprocess::PreV;
use crate::preprocess::PreprocessingData;
use crate::preprocess::spec_vk_bytes;
use crate::preprocess::verifying_key_bytes;
use crate::trace::ExecutionTrace;
use crate::trace::ProgramOutput;
use crate::trace::TraceStep;
use crate::trace::spec_output_bytes;
use crate::trace::spec_trace_bytes;
use crate::trace::encode_output;
use crate::trace::encode_trace;
use crate::transcript::LABEL_COMMITMENT;
use crate::transcript::LABEL_EVAL;
use crate::transcript::LABEL_OUTPUT;
use crate::transcript::LABEL_VK;
use crate::transcript::TRANSCRIPT_DOMAIN;
use crate::transcript::Transcript;
use crate::transcript::spec_challenge_of;
use crate::transcript::spec_frame;

verus! {

/// The first byte of a serialized proof.
pub const PROOF_MAGIC: u8 = 0xA1;

/// The proof format version.
pub const PROOF_VERSION: u8 = 1;

/// A serialized proof's exact length: magic, version, evaluation,
/// commitment, tag.
pub const PROOF_LEN: usize = 74;

/// The transcript state after the three public messages are bound:
/// verifying key, output, trace commitment.
pub open spec fn spec_base_transcript(vkb: Seq<u8>, outb: Seq<u8>, comm: Seq<u8>) -> Seq<u8> {
    seq![TRANSCRIPT_DOMAIN] + spec_frame(LABEL_VK, vkb) + spec_frame(LABEL_OUTPUT, outb)
        + spec_frame(LABEL_COMMITMENT, comm)
}

/// The challenge scalar those three messages determine.
pub open spec fn spec_proof_challenge(vkb: Seq<u8>, outb: Seq<u8>, comm: Seq<u8>) -> u64 {
    spec_challenge_of(spec_base_transcript(vkb, outb, comm))
}

/// The transcript state after the evaluation is bound as well.
pub open spec fn spec_full_transcript(vkb: Seq<u8>, outb: Seq<u8>, comm: Seq<u8>, eval: u64) -> Seq<
    u8,
> {
    spec_base_transcript(vkb, outb, comm) + spec_frame(LABEL_EVAL, u64_to_le(eval))
}

/// The binding tag that seals a proof: the digest of the full transcript.
pub open spec fn spec_tag(vkb: Seq<u8>, outb: Seq<u8>, comm: Seq<u8>, eval: u64) -> Seq<u8> {
    digest_of(spec_full_transcript(vkb, outb, comm, eval))
}

/// The accumulator column of a trace, mapped into the field.
pub open spec fn spec_field_column(steps: Seq<TraceStep>) -> Seq<u64> {
    steps.map_values(|s: TraceStep| spec_to_field(s.acc))
}

/// The serialized proof that a well-formed preprocessing, trace and output
/// determine: magic, version, evaluation, trace commitment, binding tag.
pub open spec fn spec_snark_bytes(ppv: PreV, steps: Seq<TraceStep>, vals: Seq<i64>) -> Seq<u8> {
    let vkb = spec_vk_bytes(ppv);
    let outb = spec_output_bytes(vals);
    let comm = digest_of(spec_trace_bytes(steps));
    let c = spec_proof_challenge(vkb, outb, comm);
    let e = spec_poly_eval(spec_field_column(steps), c);
    seq![PROOF_MAGIC, PROOF_VERSION] + u64_to_le(e) + comm + spec_tag(vkb, outb, comm, e)
}

/// Maps the accumulator column of a trace into the field.
fn field_column(trace: &ExecutionTrace) -> (r: Vec<u64>)
    ensures
        r@ == spec_field_column(trace.steps@),
{
    let n = trace.steps.len();
    let mut column: Vec<u64> = Vec::new();
    let mut i: usize = 0;
    while i < n
        invariant
            i <= n,
            n == trace.steps@.len(),
            column@ == spec_field_column(trace.steps@.subrange(0, i as int)),
        decreases n - i,
    {
        column.push(to_field(trace.steps[i].acc));
        proof {
            assert(column@ =~= spec_field_column(trace.steps@.subrange(0, i + 1)));
        }
        i = i + 1;
    }
    proof {
        assert(trace.steps@.subrange(0, n as int) =~= trace.steps@);
    }
    column
}

/// Lays a proof's fields out in their serialized order.
fn assemble_proof(e: u64, commitment: &Vec<u8>, tag: &Vec<u8>) -> (r: Vec<u8>)
    ensures
        r@ == seq![PROOF_MAGIC, PROOF_VERSION] + u64_to_le(e) + commitment@ + tag@,
{
    let mut out: Vec<u8> = Vec::new();
    out.push(PROOF_MAGIC);
    out.push(PROOF_VERSION);
    push_u64_le(&mut out, e);
    out.extend_from_slice(commitment.as_slice());
    out.extend_from_slice(tag.as_slice());
    proof {
        assert(out@ =~= seq![PROOF_MAGIC, PROOF_VERSION] + u64_to_le(e) + commitment@ + tag@);
    }
    out
}

/// Compresses a trace into a succinct proof bound to the public output.
///
/// Fails with `Proving` exactly when the trace or output shape disagrees
/// with the preprocessing's circuit shape; nothing is ever silently
/// truncated or padded. Each call starts a fresh transcript.
#[verifier::rlimit(100)]
pub fn prove_snark(pp: &PreprocessingData, trace: &ExecutionTrace, output: &ProgramOutput) -> (r:
    Result<Vec<u8>, ZKMLError>)
    ensures
        r is Ok <==> (trace.steps@.len() == pp@.shape.num_steps && output.values@.len()
            == pp@.shape.num_outputs),
        r is Ok ==> r->Ok_0@ == spec_snark_bytes(pp@, trace.steps@, output.values@),
        r is Err ==> r matches Err(ZKMLError::Proving(_)),
{
    proof {
        use_type_invariant(pp);
        lemma_digest_len(crate::program::spec_program_bytes(pp@.program));
    }
    let shape = pp.shape();
    if trace.steps.len() != shape.num_steps as usize || output.values.len()
        != shape.num_outputs as usize {
        return Err(ZKMLError::Proving("trace shape inconsistent with preprocessing".to_owned()));
    }
    let vkb = verifying_key_bytes(pp);
    let outb = encode_output(output);
    let trace_encoded = encode_trace(trace);
    let commitment = digest32(trace_encoded.as_slice());
    let ghost vkbs = vkb@;
    let ghost outbs = outb@;
    let ghost comms = commitment@;
    let mut t = Transcript::new();
    t.append(LABEL_VK, vkb.as_slice());
    t.append(LABEL_OUTPUT, outb.as_slice());
    t.append(LABEL_COMMITMENT, commitment.as_slice());
    proof {
        assert(t.data@ == spec_base_transcript(vkbs, outbs, comms));
    }
    let c = t.challenge_scalar();
    let column = field_column(trace);
    let e = poly_eval(&column, c);
    let mut eval_bytes: Vec<u8> = Vec::new();
    push_u64_le(&mut eval_bytes, e);
    proof {
        assert(eval_bytes@ =~= u64_to_le(e));
    }
    t.append(LABEL_EVAL, eval_bytes.as_slice());
    proof {
        assert(t.data@ == spec_full_transcript(vkbs, outbs, comms, e));
    }
    let tag = t.tag();
    proof {
        assert(tag@ == spec_tag(vkbs, outbs, comms, e));
    }
    let out = assemble_proof(e, &commitment, &tag);
    proof {
        assert(e == spec_poly_eval(
            spec_field_column(trace.steps@),
            spec_proof_challenge(vkbs, outbs, comms),
        ));
        assert(out@ == spec_snark_bytes(pp@, trace.steps@, output.values@));
    }
    Ok(out)
}

} // verus!
