//! The execution tracer: runs a bytecode program on a concrete witness and
//! records the per-step machine state together with the public output.
//!
//! All arithmetic is exact fixed-point integer arithmetic; the circuit
//! bounds checked at preprocessing time keep every accumulator value well
//! inside the signed 64-bit range, so no step can overflow.

use vstd::prelude::*;
use crate::bytes::u32_to_le;
use crate::bytes::i64_to_le;
use crate::bytes::push_u32_le;
use crate::bytes::push_i64_le;
use crate::program::BytecodeProgram;
use crate::program::Instr;
use crate::preprocess::spec_circuit_ok;
use crate::preprocess::spec_instr_ok;
use crate::preprocess::MAX_TRACE_STEPS;
use crate::preprocess::WEIGHT_BOUND;
use crate::preprocess::BIAS_BOUND;

verus! {

/// The largest amount one instruction can move the accumulator by:
/// a full-range weight times a full-range feature, `2^20 * 2^31`.
pub const STEP_BOUND: i64 = 0x8000000000000;

/// One row of the execution trace: the program counter and the
/// accumulator's value after the step.
#[derive(Clone, Copy)]
pub struct TraceStep {
    pub pc: u32,
    pub acc: i64,
}

/// The step-by-step record of one program run.
pub struct ExecutionTrace {
    pub steps: Vec<TraceStep>,
}

/// The public result tensor of one program run.
pub struct ProgramOutput {
    pub values: Vec<i64>,
}

/// The accumulator after applying one instruction.
pub open spec fn spec_step_val(acc: int, ins: Instr, feats: Seq<i32>) -> int {
    match ins {
        Instr::MulAcc { feature_idx, weight } => acc + weight * feats[feature_idx as int],
        Instr::AddConst { value } => acc + value,
        Instr::Output => acc,
    }
}

/// The accumulator after the first `i` instructions, starting from zero.
pub open spec fn spec_acc_at(instrs: Seq<Instr>, feats: Seq<i32>, i: int) -> int
    decreases i,
{
    if i <= 0 {
        0
    } else {
        spec_step_val(spec_acc_at(instrs, feats, i - 1), instrs[i - 1], feats)
    }
}

/// Under the circuit bounds, the accumulator stays within
/// `i * STEP_BOUND` after `i` steps.
pub proof fn lemma_acc_bound(instrs: Seq<Instr>, feats: Seq<i32>, i: int)
    requires
        0 <= i <= instrs.len(),
        feats.len() == 60,
        forall|j: int| 0 <= j < instrs.len() ==> spec_instr_ok(#[trigger] instrs[j]),
    ensures
        -(i * STEP_BOUND) <= spec_acc_at(instrs, feats, i) <= i * STEP_BOUND,
    decreases i,
{
    if i > 0 {
        lemma_acc_bound(instrs, feats, i - 1);
        match instrs[i - 1] {
            Instr::MulAcc { feature_idx, weight } => {
                let x = feats[feature_idx as int];
                assert(-STEP_BOUND <= (weight as int) * (x as int) <= STEP_BOUND)
                    by (nonlinear_arith)
                    requires
                        -WEIGHT_BOUND <= weight <= WEIGHT_BOUND,
                        -0x80000000 <= x <= 0x7FFFFFFF,
                ;
            },
            Instr::AddConst { value } => {
            },
            Instr::Output => {
            },
        }
    }
}

/// The whole trace of a run: after step `i` the accumulator holds
/// `spec_acc_at(i + 1)`.
pub open spec fn spec_trace(instrs: Seq<Instr>, feats: Seq<i32>) -> Seq<TraceStep> {
    Seq::new(
        instrs.len(),
        |i: int|
            TraceStep { pc: i as u32, acc: spec_acc_at(instrs, feats, i + 1) as i64 },
    )
}

/// The public output values emitted by the first `i` instructions.
pub open spec fn spec_outputs_upto(instrs: Seq<Instr>, feats: Seq<i32>, i: int) -> Seq<i64>
    decreases i,
{
    if i <= 0 {
        Seq::empty()
    } else {
        let prev = spec_outputs_upto(instrs, feats, i - 1);
        if instrs[i - 1] is Output {
            prev.push(spec_acc_at(instrs, feats, i) as i64)
        } else {
            prev
        }
    }
}

/// The public output of a whole run.
pub open spec fn spec_outputs(instrs: Seq<Instr>, feats: Seq<i32>) -> Seq<i64> {
    spec_outputs_upto(instrs, feats, instrs.len() as int)
}

/// A run emits exactly as many values as the program has `Output`
/// instructions, whatever the witness.
pub proof fn lemma_outputs_count(instrs: Seq<Instr>, feats: Seq<i32>, i: int)
    requires
        0 <= i,
    ensures
        spec_outputs_upto(instrs, feats, i).len() == crate::preprocess::spec_count_outputs(
            instrs,
            i,
        ),
    decreases i,
{
    if i > 0 {
        lemma_outputs_count(instrs, feats, i - 1);
    }
}

/// Runs the program on a 60-element witness, producing the trace and the
/// public output. Faithful to the fixed-point semantics: every step is an
/// exact integer operation.
pub fn trace(program: &BytecodeProgram, features: &Vec<i32>) -> (r: (
    ExecutionTrace,
    ProgramOutput,
))
    requires
        features@.len() == 60,
        spec_circuit_ok(program@),
    ensures
        r.0.steps@ == spec_trace(program@.instrs, features@),
        r.1.values@ == spec_outputs(program@.instrs, features@),
{
    let n = program.instrs.len();
    let mut steps: Vec<TraceStep> = Vec::new();
    let mut values: Vec<i64> = Vec::new();
    let mut acc: i64 = 0;
    let mut i: usize = 0;
    while i < n
        invariant
            i <= n,
            n == program.instrs@.len(),
            n <= MAX_TRACE_STEPS,
            features@.len() == 60,
            spec_circuit_ok(program@),
            acc == spec_acc_at(program@.instrs, features@, i as int),
            -(i as int * STEP_BOUND) <= acc <= i as int * STEP_BOUND,
            steps@.len() == i,
            forall|j: int|
                0 <= j < i ==> steps@[j] == (TraceStep {
                    pc: j as u32,
                    acc: spec_acc_at(program@.instrs, features@, j + 1) as i64,
                }),
            values@ == spec_outputs_upto(program@.instrs, features@, i as int),
        decreases n - i,
    {
        proof {
            lemma_acc_bound(program@.instrs, features@, i + 1);
        }
        match program.instrs[i] {
            Instr::MulAcc { feature_idx, weight } => {
                let x = features[feature_idx as usize];
                proof {
                    assert(-STEP_BOUND <= (weight as int) * (x as int) <= STEP_BOUND)
                        by (nonlinear_arith)
                        requires
                            -WEIGHT_BOUND <= weight <= WEIGHT_BOUND,
                            -0x80000000 <= x <= 0x7FFFFFFF,
                    ;
                }
                let prod = (weight as i64) * (x as i64);
                acc = acc + prod;
            },
            Instr::AddConst { value } => {
                acc = acc + value;
            },
            Instr::Output => {
                values.push(acc);
            },
        }
        steps.push(TraceStep { pc: i as u32, acc });
        i = i + 1;
    }
    proof {
        assert(steps@ =~= spec_trace(program@.instrs, features@));
    }
    (ExecutionTrace { steps }, ProgramOutput { values })
}

/// The canonical byte encoding of one trace row.
pub open spec fn spec_step_bytes(s: TraceStep) -> Seq<u8> {
    u32_to_le(s.pc) + i64_to_le(s.acc)
}

/// The canonical byte encoding of a row sequence.
pub open spec fn spec_steps_bytes(steps: Seq<TraceStep>) -> Seq<u8>
    decreases steps.len(),
{
    if steps.len() == 0 {
        Seq::empty()
    } else {
        spec_steps_bytes(steps.drop_last()) + spec_step_bytes(steps.last())
    }
}

/// The canonical byte encoding of a whole trace: the row count, then the rows.
pub open spec fn spec_trace_bytes(steps: Seq<TraceStep>) -> Seq<u8> {
    u32_to_le(steps.len() as u32) + spec_steps_bytes(steps)
}

/// Encodes a trace canonically, for the trace commitment.
pub fn encode_trace(t: &ExecutionTrace) -> (r: Vec<u8>)
    requires
        t.steps@.len() < 0x100000000,
    ensures
        r@ == spec_trace_bytes(t.steps@),
{
    let mut out: Vec<u8> = Vec::new();
    let n = t.steps.len();
    push_u32_le(&mut out, n as u32);
    let mut i: usize = 0;
    proof {
        assert(out@ =~= u32_to_le(n as u32) + spec_steps_bytes(t.steps@.subrange(0, 0)));
    }
    while i < n
        invariant
            i <= n,
            n == t.steps@.len(),
            out@ == u32_to_le(n as u32) + spec_steps_bytes(t.steps@.subrange(0, i as int)),
        decreases n - i,
    {
        let ghost prefix = t.steps@.subrange(0, i as int);
        let s = t.steps[i];
        push_u32_le(&mut out, s.pc);
        push_i64_le(&mut out, s.acc);
        proof {
            let next = t.steps@.subrange(0, i + 1);
            assert(next.drop_last() =~= prefix);
            assert(next.last() == t.steps@[i as int]);
            assert(out@ =~= u32_to_le(n as u32) + spec_steps_bytes(next));
        }
        i = i + 1;
    }
    proof {
        assert(t.steps@.subrange(0, n as int) =~= t.steps@);
    }
    out
}

/// The canonical byte encoding of a value sequence.
pub open spec fn spec_vals_bytes(vals: Seq<i64>) -> Seq<u8>
    decreases vals.len(),
{
    if vals.len() == 0 {
        Seq::empty()
    } else {
        spec_vals_bytes(vals.drop_last()) + i64_to_le(vals.last())
    }
}

/// A value encodes to eight bytes, so an output encodes to `4 + 8 * values`.
pub proof fn lemma_vals_bytes_len(vals: Seq<i64>)
    ensures
        spec_vals_bytes(vals).len() == 8 * vals.len(),
    decreases vals.len(),
{
    if vals.len() > 0 {
        lemma_vals_bytes_len(vals.drop_last());
    }
}

/// Each value lands at its own eight-byte slot of the encoding.
pub proof fn lemma_vals_bytes_index(vals: Seq<i64>, i: int)
    requires
        0 <= i < vals.len(),
    ensures
        spec_vals_bytes(vals).subrange(8 * i, 8 * i + 8) == i64_to_le(vals[i]),
    decreases vals.len(),
{
    lemma_vals_bytes_len(vals);
    lemma_vals_bytes_len(vals.drop_last());
    if i == vals.len() - 1 {
        assert(spec_vals_bytes(vals).subrange(8 * i, 8 * i + 8) =~= i64_to_le(vals.last()));
    } else {
        lemma_vals_bytes_index(vals.drop_last(), i);
        assert(vals.drop_last()[i] == vals[i]);
        assert(spec_vals_bytes(vals).subrange(8 * i, 8 * i + 8) =~= spec_vals_bytes(
            vals.drop_last(),
        ).subrange(8 * i, 8 * i + 8));
    }
}

/// The canonical byte encoding of a public output: the value count, then
/// the values.
pub open spec fn spec_output_bytes(vals: Seq<i64>) -> Seq<u8> {
    u32_to_le(vals.len() as u32) + spec_vals_bytes(vals)
}

/// Encodes a public output canonically, as `verify` expects it.
pub fn encode_output(o: &ProgramOutput) -> (r: Vec<u8>)
    requires
        o.values@.len() < 0x100000000,
    ensures
        r@ == spec_output_bytes(o.values@),
{
    let mut out: Vec<u8> = Vec::new();
    let n = o.values.len();
    push_u32_le(&mut out, n as u32);
    let mut i: usize = 0;
    proof {
        assert(out@ =~= u32_to_le(n as u32) + spec_vals_bytes(o.values@.subrange(0, 0)));
    }
    while i < n
        invariant
            i <= n,
            n == o.values@.len(),
            out@ == u32_to_le(n as u32) + spec_vals_bytes(o.values@.subrange(0, i as int)),
        decreases n - i,
    {
        let ghost prefix = o.values@.subrange(0, i as int);
        push_i64_le(&mut out, o.values[i]);
        proof {
            let next = o.values@.subrange(0, i + 1);
            assert(next.drop_last() =~= prefix);
            assert(next.last() == o.values@[i as int]);
            assert(out@ =~= u32_to_le(n as u32) + spec_vals_bytes(next));
        }
        i = i + 1;
    }
    proof {
        assert(o.values@.subrange(0, n as int) =~= o.values@);
    }
    out
}

} // verus!
