//! The top-level proving interface: one instance per model, preprocessed
//! once, then reused for arbitrarily many proofs.

use vstd::prelude::*;
use crate::errors::ZKMLError;
use crate::preprocess::PreprocessingData;
use crate::preprocess::preprocess;
use crate::preprocess::spec_circuit_ok;
use crate::preprocess::spec_preprocessing_of;
use crate::preprocess::spec_vk_bytes;
use crate::preprocess::verifying_key_bytes;
use crate::program::decode_model;
use crate::program::spec_decode_model;
use crate::prover::prove_snark;
use crate::prover::spec_snark_bytes;
use crate::trace::ProgramOutput;
use crate::trace::spec_outputs;
use crate::trace::spec_trace;
use crate::trace::trace;
use crate::trace::lemma_outputs_count;
use crate::preprocess::lemma_count_outputs_bounds;
use crate::verify::spec_verify;
use crate::verify::verify_snark;

verus! {

/// What one successful `prove` call returns: the serialized proof, the
/// public output it is bound to, and the serialized verifying key.
pub struct ProofResult {
    pub proof: Vec<u8>,
    pub output: ProgramOutput,
    pub verifying_key: Vec<u8>,
}

/// A rug-pull risk classifier prover: holds the model's identity and, once
/// `preprocess` has run, the one-time proving parameters.
pub struct RugDetectorZKML {
    pub model_path: String,
    pub preprocessing: Option<PreprocessingData>,
}

impl RugDetectorZKML {
    /// Creates a fresh, not yet preprocessed instance for a model.
    pub fn new(model_path: String) -> (r: Self)
        ensures
            r.model_path@ == model_path@,
            r.preprocessing is None,
    {
        RugDetectorZKML { model_path, preprocessing: None }
    }

    /// The model path this instance was created for.
    pub fn model_path(&self) -> (r: &String)
        ensures
            r@ == self.model_path@,
    {
        &self.model_path
    }

    /// Decodes the model bytes and derives the one-time proving parameters.
    ///
    /// Malformed model bytes fail with `ModelLoad`; a decoded program that
    /// breaks the circuit assumptions fails with `Preprocessing`; in either
    /// case the instance is left as it was.
    pub fn preprocess(&mut self, model_bytes: &[u8]) -> (r: Result<(), ZKMLError>)
        ensures
            final(self).model_path@ == old(self).model_path@,
            match spec_decode_model(model_bytes@) {
                None => r matches Err(ZKMLError::ModelLoad(_)) && final(self).preprocessing
                    == old(self).preprocessing,
                Some(pv) => if spec_circuit_ok(pv) {
                    r is Ok && final(self).preprocessing is Some
                        && final(self).preprocessing->Some_0@ == spec_preprocessing_of(pv)
                } else {
                    r matches Err(ZKMLError::Preprocessing(_)) && final(self).preprocessing
                        == old(self).preprocessing
                },
            },
    {
        match decode_model(model_bytes) {
            Err(e) => Err(e),
            Ok(program) => match preprocess(program) {
                Err(e) => Err(e),
                Ok(pp) => {
                    self.preprocessing = Some(pp);
                    Ok(())
                },
            },
        }
    }

    /// Generates a proof that the model classifies the given 60-feature
    /// witness to the returned output.
    ///
    /// A witness of any other length is rejected with `InvalidInput` before
    /// any tracing work; proving before preprocessing is `NotPreprocessed`.
    /// On success the proof, output and verifying key are exactly the ones
    /// the preprocessing and the witness determine.
    pub fn prove(&self, features: Vec<i32>) -> (r: Result<ProofResult, ZKMLError>)
        ensures
            features@.len() != 60 ==> r matches Err(ZKMLError::InvalidInput(_)),
            features@.len() == 60 && self.preprocessing is None ==> r matches Err(
                ZKMLError::NotPreprocessed,
            ),
            features@.len() == 60 && self.preprocessing is Some ==> {
                let ppv = self.preprocessing->Some_0@;
                &&& r is Ok
                &&& r->Ok_0.output.values@ == spec_outputs(ppv.program.instrs, features@)
                &&& r->Ok_0.verifying_key@ == spec_vk_bytes(ppv)
                &&& r->Ok_0.proof@ == spec_snark_bytes(
                    ppv,
                    spec_trace(ppv.program.instrs, features@),
                    spec_outputs(ppv.program.instrs, features@),
                )
            },
    {
        if features.len() != 60 {
            return Err(ZKMLError::InvalidInput("expected a witness of 60 features".to_owned()));
        }
        match &self.preprocessing {
            None => Err(ZKMLError::NotPreprocessed),
            Some(pp) => {
                proof {
                    use_type_invariant(pp);
                    lemma_outputs_count(pp@.program.instrs, features@, pp@.program.instrs.len() as int);
                    lemma_count_outputs_bounds(pp@.program.instrs, pp@.program.instrs.len() as int);
                }
                let (tr, out) = trace(pp.program(), &features);
                match prove_snark(pp, &tr, &out) {
                    Ok(proof_bytes) => {
                        let vk = verifying_key_bytes(pp);
                        Ok(ProofResult { proof: proof_bytes, output: out, verifying_key: vk })
                    },
                    Err(_) => unreached(),
                }
            },
        }
    }

    /// Checks a proof against a verifying key and a claimed output.
    ///
    /// Stateless and deterministic; see `verify::verify_snark` for the
    /// acceptance condition it decides.
    pub fn verify(proof: &[u8], verifying_key: &[u8], output: &[u8]) -> (r: Result<bool, ZKMLError>)
        ensures
            match spec_verify(proof@, verifying_key@, output@) {
                Some(accepted) => r is Ok && r->Ok_0 == accepted,
                None => r matches Err(ZKMLError::Deserialization(_)),
            },
    {
        verify_snark(proof, verifying_key, output)
    }
}

} // verus!
