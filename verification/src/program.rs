//! The bytecode program a model decodes to, and the model decoder.
//!
//! A model file is a fixed-point linear classifier over 60 quantized
//! features: a magic byte, a format version, the fixed-point scale, 60
//! signed 32-bit weights and a signed 64-bit bias, all little-endian.
//! Decoding is deterministic: the same bytes always yield the same program.

use vstd::prelude::*;
use crate::bytes::i32_from_le;
use crate::bytes::i64_from_le;
use crate::bytes::read_i32_le;
use crate::bytes::read_i64_le;
use crate::bytes::push_i32_le;
use crate::bytes::push_i64_le;
use crate::bytes::i32_to_le;
use crate::bytes::i64_to_le;
use crate::errors::ZKMLError;

verus! {

/// The first byte of a model file.
pub const MODEL_MAGIC: u8 = 0xA0;

/// The model format version this decoder supports.
pub const MODEL_VERSION: u8 = 1;

/// The number of features the fixed classifier consumes.
pub const NUM_FEATURES: usize = 60;

/// A model file's exact length: magic, version, scale, 60 weights, bias.
pub const MODEL_LEN: usize = 251;

/// One bytecode instruction of the register machine the tracer runs.
#[derive(Clone, Copy)]
pub enum Instr {
    /// Adds `weight * feature[feature_idx]` to the accumulator.
    MulAcc { feature_idx: u8, weight: i32 },
    /// Adds a constant to the accumulator.
    AddConst { value: i64 },
    /// Emits the accumulator as the next public output value.
    Output,
}

/// A linear bytecode program together with its fixed-point scale.
pub struct BytecodeProgram {
    pub scale: u8,
    pub instrs: Vec<Instr>,
}

/// The mathematical view of a program.
pub struct ProgramV {
    pub scale: u8,
    pub instrs: Seq<Instr>,
}

impl View for BytecodeProgram {
    type V = ProgramV;

    open spec fn view(&self) -> ProgramV {
        ProgramV { scale: self.scale, instrs: self.instrs@ }
    }
}

/// The instruction at position `i` of the program held by a valid model file.
pub open spec fn spec_instr_at(b: Seq<u8>, i: int) -> Instr {
    if i < 60 {
        Instr::MulAcc {
            feature_idx: i as u8,
            weight: i32_from_le(b.subrange(3 + 4 * i, 7 + 4 * i)),
        }
    } else if i == 60 {
        Instr::AddConst { value: i64_from_le(b.subrange(243, 251)) }
    } else {
        Instr::Output
    }
}

/// What a model file decodes to: 60 multiply-accumulate steps, the bias,
/// and one output emission; or nothing, if the bytes are malformed.
pub open spec fn spec_decode_model(b: Seq<u8>) -> Option<ProgramV> {
    if b.len() == MODEL_LEN && b[0] == MODEL_MAGIC && b[1] == MODEL_VERSION {
        Some(ProgramV { scale: b[2], instrs: Seq::new(62, |i: int| spec_instr_at(b, i)) })
    } else {
        None
    }
}

/// Decodes a model file into its bytecode program.
///
/// Decoding is a function of the bytes alone; malformed bytes are rejected
/// with `ModelLoad` and nothing else ever is.
pub fn decode_model(b: &[u8]) -> (r: Result<BytecodeProgram, ZKMLError>)
    ensures
        match spec_decode_model(b@) {
            Some(pv) => r is Ok && r->Ok_0@ == pv,
            None => r matches Err(ZKMLError::ModelLoad(_)),
        },
{
    if b.len() != MODEL_LEN {
        return Err(ZKMLError::ModelLoad("model file has the wrong length".to_owned()));
    }
    if b[0] != MODEL_MAGIC {
        return Err(ZKMLError::ModelLoad("not a model file".to_owned()));
    }
    if b[1] != MODEL_VERSION {
        return Err(ZKMLError::ModelLoad("unsupported model format version".to_owned()));
    }
    let scale = b[2];
    let mut instrs: Vec<Instr> = Vec::new();
    let mut i: usize = 0;
    while i < 60
        invariant
            i <= 60,
            b@.len() == MODEL_LEN,
            instrs@.len() == i,
            forall|j: int| 0 <= j < i ==> instrs@[j] == spec_instr_at(b@, j),
        decreases 60 - i,
    {
        let w = read_i32_le(b, 3 + 4 * i);
        instrs.push(Instr::MulAcc { feature_idx: i as u8, weight: w });
        i = i + 1;
    }
    let bias = read_i64_le(b, 243);
    instrs.push(Instr::AddConst { value: bias });
    instrs.push(Instr::Output);
    proof {
        assert(instrs@ =~= Seq::new(62, |i: int| spec_instr_at(b@, i)));
    }
    Ok(BytecodeProgram { scale, instrs })
}

/// The canonical byte encoding of one instruction, used for the program
/// commitment that preprocessing derives.
pub open spec fn spec_instr_bytes(ins: Instr) -> Seq<u8> {
    match ins {
        Instr::MulAcc { feature_idx, weight } => seq![1u8, feature_idx] + i32_to_le(weight),
        Instr::AddConst { value } => seq![2u8] + i64_to_le(value),
        Instr::Output => seq![3u8],
    }
}

/// The canonical byte encoding of a whole instruction sequence.
pub open spec fn spec_instrs_bytes(instrs: Seq<Instr>) -> Seq<u8>
    decreases instrs.len(),
{
    if instrs.len() == 0 {
        Seq::empty()
    } else {
        spec_instrs_bytes(instrs.drop_last()) + spec_instr_bytes(instrs.last())
    }
}

/// The canonical byte encoding of a program: its scale, then its instructions.
pub open spec fn spec_program_bytes(pv: ProgramV) -> Seq<u8> {
    seq![pv.scale] + spec_instrs_bytes(pv.instrs)
}

/// Encodes a program canonically, for the preprocessing commitment.
pub fn encode_program(p: &BytecodeProgram) -> (r: Vec<u8>)
    ensures
        r@ == spec_program_bytes(p@),
{
    let mut out: Vec<u8> = Vec::new();
    out.push(p.scale);
    let n = p.instrs.len();
    let mut i: usize = 0;
    proof {
        assert(out@ =~= seq![p.scale] + spec_instrs_bytes(p.instrs@.subrange(0, 0)));
    }
    while i < n
        invariant
            i <= n,
            n == p.instrs@.len(),
            out@ == seq![p.scale] + spec_instrs_bytes(p.instrs@.subrange(0, i as int)),
        decreases n - i,
    {
        let ghost prefix = p.instrs@.subrange(0, i as int);
        match p.instrs[i] {
            Instr::MulAcc { feature_idx, weight } => {
                out.push(1u8);
                out.push(feature_idx);
                push_i32_le(&mut out, weight);
            },
            Instr::AddConst { value } => {
                out.push(2u8);
                push_i64_le(&mut out, value);
            },
            Instr::Output => {
                out.push(3u8);
            },
        }
        proof {
            let next = p.instrs@.subrange(0, i + 1);
            assert(next.drop_last() =~= prefix);
            assert(next.last() == p.instrs@[i as int]);
            assert(out@ =~= seq![p.scale] + spec_instrs_bytes(next));
        }
        i = i + 1;
    }
    proof {
        assert(p.instrs@.subrange(0, n as int) =~= p.instrs@);
    }
    out
}

} // verus!
