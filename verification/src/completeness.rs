//! The completeness laws of the scheme: an honestly produced proof is
//! always accepted, and preprocessing runs on the same program are
//! interchangeable.

use vstd::prelude::*;
use crate::bytes::u32_to_le;
use crate::bytes::u64_to_le;
use crate::bytes::lemma_u32_le_round_trip;
use crate::bytes::lemma_u64_le_round_trip;
use crate::bytes::lemma_i64_le_round_trip;
use crate::digest::digest_of;
use crate::digest::lemma_digest_len;
use crate::field::spec_poly_eval;
use crate::field::lemma_poly_eval_bound;
use crate::preprocess::PreV;
use crate::preprocess::lemma_count_outputs_bounds;
use crate::preprocess::lemma_preprocessing_wf;
use crate::preprocess::spec_circuit_ok;
use crate::preprocess::spec_pp_wf;
use crate::preprocess::spec_preprocessing_of;
use crate::preprocess::spec_vk_bytes;
use crate::program::ProgramV;
use crate::program::spec_program_bytes;
use crate::prover::PROOF_MAGIC;
use crate::prover::PROOF_VERSION;
use crate::prover::spec_field_column;
use crate::prover::spec_full_transcript;
use crate::prover::spec_proof_challenge;
use crate::prover::spec_snark_bytes;
use crate::prover::spec_tag;
use crate::trace::spec_output_bytes;
use crate::trace::spec_outputs;
use crate::trace::spec_trace;
use crate::trace::spec_trace_bytes;
use crate::trace::spec_vals_bytes;
use crate::trace::lemma_outputs_count;
use crate::trace::lemma_vals_bytes_len;
use crate::trace::lemma_vals_bytes_index;
use crate::verify::ProofParts;
use crate::verify::spec_accepts;
use crate::verify::spec_parse_output;
use crate::verify::spec_parse_proof;
use crate::verify::spec_parse_vk;
use crate::verify::spec_verify;

verus! {

/// Completeness: for every well-formed preprocessing and every 60-feature
/// witness, the proof, verifying key and output that `prove` determines
/// are accepted by `verify`.
pub proof fn lemma_prove_then_verify(ppv: PreV, feats: Seq<i32>)
    requires
        spec_pp_wf(ppv),
        feats.len() == 60,
    ensures
        ({
            let vals = spec_outputs(ppv.program.instrs, feats);
            let steps = spec_trace(ppv.program.instrs, feats);
            spec_verify(
                spec_snark_bytes(ppv, steps, vals),
                spec_vk_bytes(ppv),
                spec_output_bytes(vals),
            ) == Some(true)
        }),
{
    let instrs = ppv.program.instrs;
    let vals = spec_outputs(instrs, feats);
    let steps = spec_trace(instrs, feats);
    let vkb = spec_vk_bytes(ppv);
    let outb = spec_output_bytes(vals);
    let comm = digest_of(spec_trace_bytes(steps));
    let c = spec_proof_challenge(vkb, outb, comm);
    let e = spec_poly_eval(spec_field_column(steps), c);
    let tag = spec_tag(vkb, outb, comm, e);
    let proofb = spec_snark_bytes(ppv, steps, vals);
    assert(proofb == seq![PROOF_MAGIC, PROOF_VERSION] + u64_to_le(e) + comm + tag);

    // The proof bytes parse back to the evaluation, commitment and tag.
    lemma_digest_len(spec_trace_bytes(steps));
    lemma_digest_len(spec_full_transcript(vkb, outb, comm, e));
    lemma_u64_le_round_trip(e);
    lemma_poly_eval_bound(spec_field_column(steps), c);
    assert(proofb.len() == 74);
    assert(proofb[0] == PROOF_MAGIC && proofb[1] == PROOF_VERSION);
    assert(proofb.subrange(2, 10) =~= u64_to_le(e));
    assert(proofb.subrange(10, 42) =~= comm);
    assert(proofb.subrange(42, 74) =~= tag);
    assert(spec_parse_proof(proofb) == Some(ProofParts { eval: e, commitment: comm, tag: tag }));

    // The verifying key bytes parse back, with the announced output arity.
    lemma_digest_len(spec_program_bytes(ppv.program));
    lemma_u32_le_round_trip(ppv.shape.num_outputs);
    assert(vkb.len() == 43);
    assert(vkb[0] == crate::preprocess::VK_MAGIC && vkb[1] == crate::preprocess::VK_VERSION);
    assert(vkb.subrange(6, 10) =~= u32_to_le(ppv.shape.num_outputs));
    assert(spec_parse_vk(vkb) is Some);
    assert(spec_parse_vk(vkb)->Some_0.num_outputs == ppv.shape.num_outputs);

    // The output bytes parse back to as many values as were emitted.
    lemma_outputs_count(instrs, feats, instrs.len() as int);
    lemma_count_outputs_bounds(instrs, instrs.len() as int);
    lemma_vals_bytes_len(vals);
    lemma_u32_le_round_trip(vals.len() as u32);
    assert(outb.len() == 4 + 8 * vals.len());
    assert(outb.subrange(0, 4) =~= u32_to_le(vals.len() as u32));
    assert(spec_parse_output(outb) is Some);
    assert(spec_parse_output(outb)->Some_0.len() == vals.len());

    // Both acceptance checks hold: the arity matches the key, and the tag
    // is the digest of the very transcript the prover sealed.
    assert(vals.len() == ppv.shape.num_outputs);
    assert(spec_accepts(
        spec_parse_proof(proofb)->Some_0,
        spec_parse_vk(vkb)->Some_0,
        spec_parse_output(outb)->Some_0,
        vkb,
        outb,
    ));
    assert(spec_verify(proofb, vkb, outb) == Some(true));
}

/// Serialization of a public output is lossless: parsing the canonical
/// encoding gives back exactly the values that were encoded.
pub proof fn lemma_output_bytes_round_trip(vals: Seq<i64>)
    requires
        vals.len() < 0x100000000,
    ensures
        spec_parse_output(spec_output_bytes(vals)) == Some(vals),
{
    let outb = spec_output_bytes(vals);
    lemma_vals_bytes_len(vals);
    lemma_u32_le_round_trip(vals.len() as u32);
    assert(outb.subrange(0, 4) =~= u32_to_le(vals.len() as u32));
    assert(outb.len() == 4 + 8 * vals.len());
    let parsed = spec_parse_output(outb)->Some_0;
    assert forall|i: int| 0 <= i < vals.len() implies parsed[i] == vals[i] by {
        lemma_vals_bytes_index(vals, i);
        assert(outb.subrange(4 + 8 * i, 12 + 8 * i) =~= spec_vals_bytes(vals).subrange(
            8 * i,
            8 * i + 8,
        ));
        lemma_i64_le_round_trip(vals[i]);
    }
    assert(parsed =~= vals);
}

/// Preprocessing determinism: two preprocessing runs over the same program
/// yield the same parameters and the same verifying key, and a proof made
/// with one run's parameters is accepted under the other run's key.
pub proof fn lemma_preprocess_interoperable(ppv1: PreV, ppv2: PreV, pv: ProgramV, feats: Seq<i32>)
    requires
        ppv1 == spec_preprocessing_of(pv),
        ppv2 == spec_preprocessing_of(pv),
        spec_circuit_ok(pv),
        feats.len() == 60,
    ensures
        ppv1 == ppv2,
        spec_vk_bytes(ppv1) == spec_vk_bytes(ppv2),
        ({
            let vals = spec_outputs(pv.instrs, feats);
            let steps = spec_trace(pv.instrs, feats);
            spec_verify(
                spec_snark_bytes(ppv1, steps, vals),
                spec_vk_bytes(ppv2),
                spec_output_bytes(vals),
            ) == Some(true)
        }),
{
    lemma_preprocessing_wf(pv);
    lemma_prove_then_verify(ppv1, feats);
}

} // verus!
