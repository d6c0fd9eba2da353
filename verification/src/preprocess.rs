//! One-time preprocessing: checks a bytecode program against the circuit
//! shape assumptions and derives the public parameters shared by the prover
//! and the verifier.
//!
//! `PreprocessingData` and a program are in one-to-one correspondence: the
//! derivation is a pure function of the program, so byte-identical model
//! files always yield interchangeable preprocessing artifacts.

use vstd::prelude::*;
use crate::bytes::u32_to_le;
use crate::bytes::push_u32_le;
use crate::digest::digest_of;
use crate::digest::digest32;
use crate::errors::ZKMLError;
use crate::program::BytecodeProgram;
use crate::program::Instr;
use crate::program::ProgramV;
use crate::program::encode_program;
use crate::program::spec_program_bytes;

verus! {

/// The configured bound on the trace length a circuit may have.
pub const MAX_TRACE_STEPS: usize = 1024;

/// The largest weight magnitude the circuit's range checks admit, `2^20`.
pub const WEIGHT_BOUND: i32 = 0x100000;

/// The largest bias magnitude the circuit's range checks admit, `2^40`.
pub const BIAS_BOUND: i64 = 0x10000000000;

/// The largest fixed-point scale the circuit admits.
pub const SCALE_BOUND: u8 = 24;

/// The first byte of a serialized verifying key.
pub const VK_MAGIC: u8 = 0xA2;

/// The verifying key format version.
pub const VK_VERSION: u8 = 1;

/// A serialized verifying key's exact length: magic, version, shape, digest.
pub const VK_LEN: usize = 43;

/// One instruction within the circuit's assumptions: known opcode, feature
/// index inside the witness, weight and bias inside the range checks.
pub open spec fn spec_instr_ok(ins: Instr) -> bool {
    match ins {
        Instr::MulAcc { feature_idx, weight } => feature_idx < 60 && -WEIGHT_BOUND <= weight
            <= WEIGHT_BOUND,
        Instr::AddConst { value } => -BIAS_BOUND <= value <= BIAS_BOUND,
        Instr::Output => true,
    }
}

/// A whole program within the circuit's assumptions.
pub open spec fn spec_circuit_ok(pv: ProgramV) -> bool {
    &&& pv.instrs.len() <= MAX_TRACE_STEPS
    &&& pv.scale <= SCALE_BOUND
    &&& forall|i: int| 0 <= i < pv.instrs.len() ==> spec_instr_ok(#[trigger] pv.instrs[i])
}

/// The number of output values the first `i` instructions emit.
pub open spec fn spec_count_outputs(instrs: Seq<Instr>, i: int) -> int
    decreases i,
{
    if i <= 0 {
        0
    } else {
        spec_count_outputs(instrs, i - 1) + if instrs[i - 1] is Output {
            1int
        } else {
            0int
        }
    }
}

/// The output count lies between zero and the instruction count.
pub proof fn lemma_count_outputs_bounds(instrs: Seq<Instr>, i: int)
    requires
        0 <= i,
    ensures
        0 <= spec_count_outputs(instrs, i) <= i,
    decreases i,
{
    if i > 0 {
        lemma_count_outputs_bounds(instrs, i - 1);
    }
}

/// The circuit shape descriptors shared by prover and verifier.
#[derive(Clone, Copy)]
pub struct CircuitShape {
    pub num_steps: u32,
    pub num_outputs: u32,
    pub scale: u8,
}

/// The one-time public parameters of a model: circuit shape and program
/// commitment. Immutable after creation; reusable across many proofs.
pub struct PreprocessingData {
    shape: CircuitShape,
    program: BytecodeProgram,
    program_digest: Vec<u8>,
}

/// The mathematical view of preprocessing data.
pub struct PreV {
    pub shape: CircuitShape,
    pub program: ProgramV,
    pub program_digest: Seq<u8>,
}

/// Internal consistency of preprocessing data: the shape describes the
/// program, the program meets the circuit assumptions, and the digest
/// commits to the program's canonical encoding.
pub open spec fn spec_pp_wf(ppv: PreV) -> bool {
    &&& spec_circuit_ok(ppv.program)
    &&& ppv.shape.num_steps == ppv.program.instrs.len()
    &&& ppv.shape.num_outputs == spec_count_outputs(
        ppv.program.instrs,
        ppv.program.instrs.len() as int,
    )
    &&& ppv.shape.scale == ppv.program.scale
    &&& ppv.program_digest == digest_of(spec_program_bytes(ppv.program))
}

/// What preprocessing derives from a program that meets the circuit
/// assumptions.
pub open spec fn spec_preprocessing_of(pv: ProgramV) -> PreV {
    PreV {
        shape: CircuitShape {
            num_steps: pv.instrs.len() as u32,
            num_outputs: spec_count_outputs(pv.instrs, pv.instrs.len() as int) as u32,
            scale: pv.scale,
        },
        program: pv,
        program_digest: digest_of(spec_program_bytes(pv)),
    }
}

/// Preprocessing of a valid program is well-formed.
pub proof fn lemma_preprocessing_wf(pv: ProgramV)
    requires
        spec_circuit_ok(pv),
    ensures
        spec_pp_wf(spec_preprocessing_of(pv)),
{
    lemma_count_outputs_bounds(pv.instrs, pv.instrs.len() as int);
}

impl View for PreprocessingData {
    type V = PreV;

    closed spec fn view(&self) -> PreV {
        PreV {
            shape: self.shape,
            program: self.program@,
            program_digest: self.program_digest@,
        }
    }
}

impl PreprocessingData {
    #[verifier::type_invariant]
    pub(crate) open spec fn inv(self) -> bool {
        spec_pp_wf(self@)
    }

    /// The circuit shape this preprocessing was derived for.
    pub fn shape(&self) -> (r: CircuitShape)
        ensures
            r == self@.shape,
    {
        self.shape
    }

    /// The program this preprocessing was derived for.
    pub fn program(&self) -> (r: &BytecodeProgram)
        ensures
            r@ == self@.program,
    {
        &self.program
    }

    /// The program commitment digest.
    pub fn program_digest(&self) -> (r: &Vec<u8>)
        ensures
            r@ == self@.program_digest,
    {
        &self.program_digest
    }

}

/// Checks the program against the circuit assumptions and derives the
/// one-time proving and verification parameters. A pure function of the
/// program: the same program always yields the same parameters.
pub fn preprocess(program: BytecodeProgram) -> (r: Result<PreprocessingData, ZKMLError>)
    ensures
        r is Ok <==> spec_circuit_ok(program@),
        r is Ok ==> r->Ok_0@ == spec_preprocessing_of(program@),
        r is Err ==> r matches Err(ZKMLError::Preprocessing(_)),
{
    let n = program.instrs.len();
    if n > MAX_TRACE_STEPS {
        return Err(ZKMLError::Preprocessing("trace length exceeds the configured bound".to_owned()));
    }
    if program.scale > SCALE_BOUND {
        return Err(ZKMLError::Preprocessing("fixed-point scale out of range".to_owned()));
    }
    let mut num_outputs: usize = 0;
    let mut i: usize = 0;
    while i < n
        invariant
            i <= n,
            n == program.instrs@.len(),
            n <= MAX_TRACE_STEPS,
            num_outputs as int == spec_count_outputs(program.instrs@, i as int),
            num_outputs <= i,
            forall|j: int| 0 <= j < i ==> spec_instr_ok(#[trigger] program.instrs@[j]),
        decreases n - i,
    {
        match program.instrs[i] {
            Instr::MulAcc { feature_idx, weight } => {
                if feature_idx >= 60 || weight < -WEIGHT_BOUND || weight > WEIGHT_BOUND {
                    return Err(ZKMLError::Preprocessing("unsupported instruction operand".to_owned()));
                }
            },
            Instr::AddConst { value } => {
                if value < -BIAS_BOUND || value > BIAS_BOUND {
                    return Err(ZKMLError::Preprocessing("unsupported instruction operand".to_owned()));
                }
            },
            Instr::Output => {
                num_outputs = num_outputs + 1;
            },
        }
        i = i + 1;
    }
    let encoded = encode_program(&program);
    let program_digest = digest32(encoded.as_slice());
    let shape = CircuitShape {
        num_steps: n as u32,
        num_outputs: num_outputs as u32,
        scale: program.scale,
    };
    Ok(PreprocessingData { shape, program, program_digest })
}

/// The serialized verifying key: magic, version, circuit shape, program
/// commitment. Everything the verifier needs, independent of any witness.
pub open spec fn spec_vk_bytes(ppv: PreV) -> Seq<u8> {
    seq![VK_MAGIC, VK_VERSION] + u32_to_le(ppv.shape.num_steps) + u32_to_le(ppv.shape.num_outputs)
        + seq![ppv.shape.scale] + ppv.program_digest
}

/// Serializes the public verifying key derived from this preprocessing.
pub fn verifying_key_bytes(pp: &PreprocessingData) -> (r: Vec<u8>)
    ensures
        r@ == spec_vk_bytes(pp@),
{
    proof {
        use_type_invariant(pp);
    }
    let mut out: Vec<u8> = Vec::new();
    out.push(VK_MAGIC);
    out.push(VK_VERSION);
    push_u32_le(&mut out, pp.shape.num_steps);
    push_u32_le(&mut out, pp.shape.num_outputs);
    out.push(pp.shape.scale);
    out.extend_from_slice(pp.program_digest.as_slice());
    proof {
        assert(out@ =~= spec_vk_bytes(pp@));
    }
    out
}

} // verus!
