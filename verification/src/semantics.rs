//! The mathematical semantics of the virtual machine: an abstract
//! machine state, the effect of one instruction on it, and the
//! outcome of running a whole program. The executable engine in `vm`
//! is proved to follow these functions exactly.

use vstd::prelude::*;
use vstd::wrapping::i32_specs;
use crate::register::Register;
use crate::frame::FrameModel;
use crate::value::{ValueModel, value_text};
use crate::error::ErrorModel;
use crate::instruction::InstructionModel;
use crate::float_ops::{
    flt_add_bits,
    flt_sub_bits,
    flt_mul_bits,
    flt_div_bits,
    flt_lt_bits,
    flt_gt_bits,
    flt_is_zero_bits,
};

verus! {

/// The number of slots of the register file.
pub const REG_COUNT: usize = 65536;

/// The abstract state of the machine: the register file, the operand
/// stack, the diagnostic trail, the text emitted so far, and the
/// count of instructions executed.
#[verifier::ext_equal]
pub struct MachineModel {
    pub registers: Seq<ValueModel>,
    pub stack: Seq<ValueModel>,
    pub frames: Seq<FrameModel>,
    pub output: Seq<char>,
    pub instruction_pointer: usize,
}

impl MachineModel {
    /// Well-formedness: the register file has exactly its fixed
    /// number of slots.
    pub open spec fn wf(&self) -> bool {
        self.registers.len() == REG_COUNT
    }

    /// The state of a machine just constructed: every register null,
    /// everything else empty.
    pub open spec fn initial() -> MachineModel {
        MachineModel {
            registers: Seq::new(REG_COUNT as nat, |i: int| ValueModel::Null),
            stack: Seq::empty(),
            frames: Seq::empty(),
            output: Seq::empty(),
            instruction_pointer: 0,
        }
    }

    /// The value a register holds.
    pub open spec fn reg(&self, r: Register) -> ValueModel {
        self.registers[r.0 as int]
    }
}

/// The state after appending one diagnostic record.
pub open spec fn with_frame(m: MachineModel, name: Seq<char>, line: u32) -> MachineModel {
    MachineModel {
        frames: m.frames.push(
            FrameModel { file_name: "boltvm"@, function_name: name, line },
        ),
        ..m
    }
}

/// The state after writing a value into a register.
pub open spec fn store(m: MachineModel, r: Register, v: ValueModel) -> MachineModel {
    MachineModel { registers: m.registers.update(r.0 as int, v), ..m }
}

/// The state after counting one executed instruction. The counter
/// saturates at its maximum rather than wrapping.
pub open spec fn bump_ip(m: MachineModel) -> MachineModel {
    MachineModel {
        instruction_pointer: if m.instruction_pointer == usize::MAX {
            m.instruction_pointer
        } else {
            (m.instruction_pointer + 1) as usize
        },
        ..m
    }
}

/// The state after emitting text.
pub open spec fn with_output(m: MachineModel, text: Seq<char>) -> MachineModel {
    MachineModel { output: m.output + text, ..m }
}

/// A typed integer fetch: the payload, or the error naming the
/// expected type and the offending register.
pub open spec fn fetch_int(m: MachineModel, r: Register) -> Result<i32, ErrorModel> {
    match m.reg(r) {
        ValueModel::Int(v) => Ok(v),
        _ => Err(ErrorModel::ExpectedType("int"@, r)),
    }
}

/// A typed float fetch, the payload as its bit pattern.
pub open spec fn fetch_float(m: MachineModel, r: Register) -> Result<u32, ErrorModel> {
    match m.reg(r) {
        ValueModel::Float(v) => Ok(v),
        _ => Err(ErrorModel::ExpectedType("float"@, r)),
    }
}

/// A typed string fetch.
pub open spec fn fetch_string(m: MachineModel, r: Register) -> Result<Seq<char>, ErrorModel> {
    match m.reg(r) {
        ValueModel::Str(v) => Ok(v),
        _ => Err(ErrorModel::ExpectedType("string"@, r)),
    }
}

/// A typed boolean fetch.
pub open spec fn fetch_bool(m: MachineModel, r: Register) -> Result<bool, ErrorModel> {
    match m.reg(r) {
        ValueModel::Bool(v) => Ok(v),
        _ => Err(ErrorModel::ExpectedType("bool"@, r)),
    }
}

/// A typed array fetch.
pub open spec fn fetch_array(m: MachineModel, r: Register) -> Result<
    Seq<ValueModel>,
    ErrorModel,
> {
    match m.reg(r) {
        ValueModel::Array(v) => Ok(v),
        _ => Err(ErrorModel::ExpectedType("array"@, r)),
    }
}

/// The quotient of truncated `i32` division with a non-zero divisor:
/// what `checked_div` yields, with its one overflowing case (the
/// minimum divided by minus one) wrapping back to the minimum.
pub open spec fn div_int(a: i32, b: i32) -> i32
    recommends
        b != 0,
{
    match a.checked_div(b) {
        Some(q) => q,
        None => i32::MIN,
    }
}

/// The element count of an array stored as an `Int`, wrapped into the
/// 32-bit range as the machine's cast does.
pub open spec fn len_as_int(n: nat) -> i32 {
    i32_specs::signed_crop(n as int)
}

/// What one instruction does to a machine state.
pub enum StepOutcome {
    /// The instruction completed; execution continues.
    Next(MachineModel),
    /// `Halt`: execution stops with success, the state untouched.
    Stop(MachineModel),
    /// The instruction failed; the state keeps every effect already
    /// committed, the appended diagnostic record included.
    Fail(MachineModel, ErrorModel),
}

/// The effect of one instruction: the diagnostic record is appended
/// first, then the opcode's effect is performed; a failure returns
/// immediately with the state as it stands.
pub open spec fn step(m: MachineModel, instr: InstructionModel) -> StepOutcome {
    match instr {
        InstructionModel::LoadInt(r, v) => {
            let m1 = with_frame(m, "Instruction::LoadInt"@, 80);
            StepOutcome::Next(bump_ip(store(m1, r, ValueModel::Int(v))))
        },
        InstructionModel::LoadFlt(r, v) => {
            let m1 = with_frame(m, "Instruction::LoadFlt"@, 99);
            StepOutcome::Next(bump_ip(store(m1, r, ValueModel::Float(v))))
        },
        InstructionModel::LoadStr(r, v) => {
            let m1 = with_frame(m, "Instruction::LoadStr"@, 109);
            StepOutcome::Next(bump_ip(store(m1, r, ValueModel::Str(v))))
        },
        InstructionModel::LoadBool(r, v) => {
            let m1 = with_frame(m, "Instruction::LoadBool"@, 119);
            StepOutcome::Next(bump_ip(store(m1, r, ValueModel::Bool(v))))
        },
        InstructionModel::AddInt(d, a, b) => {
            let m1 = with_frame(m, "Instruction::AddInt"@, 129);
            match (fetch_int(m1, a), fetch_int(m1, b)) {
                (Err(e), _) => StepOutcome::Fail(m1, e),
                (Ok(_), Err(e)) => StepOutcome::Fail(m1, e),
                (Ok(x), Ok(y)) => StepOutcome::Next(
                    bump_ip(store(m1, d, ValueModel::Int(i32_specs::wrapping_add(x, y)))),
                ),
            }
        },
        InstructionModel::AddFlt(d, a, b) => {
            let m1 = with_frame(m, "Instruction::AddFlt"@, 141);
            match (fetch_float(m1, a), fetch_float(m1, b)) {
                (Err(e), _) => StepOutcome::Fail(m1, e),
                (Ok(_), Err(e)) => StepOutcome::Fail(m1, e),
                (Ok(x), Ok(y)) => StepOutcome::Next(
                    bump_ip(store(m1, d, ValueModel::Float(flt_add_bits(x, y)))),
                ),
            }
        },
        InstructionModel::SubInt(d, a, b) => {
            let m1 = with_frame(m, "Instruction::SubInt"@, 153);
            match (fetch_int(m1, a), fetch_int(m1, b)) {
                (Err(e), _) => StepOutcome::Fail(m1, e),
                (Ok(_), Err(e)) => StepOutcome::Fail(m1, e),
                (Ok(x), Ok(y)) => StepOutcome::Next(
                    bump_ip(store(m1, d, ValueModel::Int(i32_specs::wrapping_sub(x, y)))),
                ),
            }
        },
        InstructionModel::SubFlt(d, a, b) => {
            let m1 = with_frame(m, "Instruction::SubFlt"@, 165);
            match (fetch_float(m1, a), fetch_float(m1, b)) {
                (Err(e), _) => StepOutcome::Fail(m1, e),
                (Ok(_), Err(e)) => StepOutcome::Fail(m1, e),
                (Ok(x), Ok(y)) => StepOutcome::Next(
                    bump_ip(store(m1, d, ValueModel::Float(flt_sub_bits(x, y)))),
                ),
            }
        },
        InstructionModel::MulInt(d, a, b) => {
            let m1 = with_frame(m, "Instruction::MulInt"@, 177);
            match (fetch_int(m1, a), fetch_int(m1, b)) {
                (Err(e), _) => StepOutcome::Fail(m1, e),
                (Ok(_), Err(e)) => StepOutcome::Fail(m1, e),
                (Ok(x), Ok(y)) => StepOutcome::Next(
                    bump_ip(store(m1, d, ValueModel::Int(i32_specs::wrapping_mul(x, y)))),
                ),
            }
        },
        InstructionModel::MulFlt(d, a, b) => {
            let m1 = with_frame(m, "Instruction::MulFlt"@, 189);
            match (fetch_float(m1, a), fetch_float(m1, b)) {
                (Err(e), _) => StepOutcome::Fail(m1, e),
                (Ok(_), Err(e)) => StepOutcome::Fail(m1, e),
                (Ok(x), Ok(y)) => StepOutcome::Next(
                    bump_ip(store(m1, d, ValueModel::Float(flt_mul_bits(x, y)))),
                ),
            }
        },
        InstructionModel::DivInt(d, a, b) => {
            let m1 = with_frame(m, "Instruction::DivInt"@, 201);
            match (fetch_int(m1, a), fetch_int(m1, b)) {
                (Err(e), _) => StepOutcome::Fail(m1, e),
                (Ok(_), Err(e)) => StepOutcome::Fail(m1, e),
                (Ok(x), Ok(y)) => if y == 0 {
                    StepOutcome::Fail(m1, ErrorModel::DivisionByZero)
                } else {
                    StepOutcome::Next(bump_ip(store(m1, d, ValueModel::Int(div_int(x, y)))))
                },
            }
        },
        InstructionModel::DivFlt(d, a, b) => {
            let m1 = with_frame(m, "Instruction::DivFlt"@, 218);
            match (fetch_float(m1, a), fetch_float(m1, b)) {
                (Err(e), _) => StepOutcome::Fail(m1, e),
                (Ok(_), Err(e)) => StepOutcome::Fail(m1, e),
                (Ok(x), Ok(y)) => if flt_is_zero_bits(y) {
                    StepOutcome::Fail(m1, ErrorModel::DivisionByZero)
                } else {
                    StepOutcome::Next(
                        bump_ip(store(m1, d, ValueModel::Float(flt_div_bits(x, y)))),
                    )
                },
            }
        },
        InstructionModel::ConcatStrings(d, a, b) => {
            let m1 = with_frame(m, "Instruction::ConcatStrings"@, 235);
            match (fetch_string(m1, a), fetch_string(m1, b)) {
                (Err(e), _) => StepOutcome::Fail(m1, e),
                (Ok(_), Err(e)) => StepOutcome::Fail(m1, e),
                (Ok(x), Ok(y)) => StepOutcome::Next(
                    bump_ip(store(m1, d, ValueModel::Str(x + y))),
                ),
            }
        },
        InstructionModel::AndBool(d, a, b) => {
            let m1 = with_frame(m, "Instruction::AndBool"@, 247);
            match (fetch_bool(m1, a), fetch_bool(m1, b)) {
                (Err(e), _) => StepOutcome::Fail(m1, e),
                (Ok(_), Err(e)) => StepOutcome::Fail(m1, e),
                (Ok(x), Ok(y)) => StepOutcome::Next(
                    bump_ip(store(m1, d, ValueModel::Bool(x && y))),
                ),
            }
        },
        InstructionModel::OrBool(d, a, b) => {
            let m1 = with_frame(m, "Instruction::OrBool"@, 259);
            match (fetch_bool(m1, a), fetch_bool(m1, b)) {
                (Err(e), _) => StepOutcome::Fail(m1, e),
                (Ok(_), Err(e)) => StepOutcome::Fail(m1, e),
                (Ok(x), Ok(y)) => StepOutcome::Next(
                    bump_ip(store(m1, d, ValueModel::Bool(x || y))),
                ),
            }
        },
        InstructionModel::LtInt(d, a, b) => {
            let m1 = with_frame(m, "Instruction::LtInt"@, 271);
            match (fetch_int(m1, a), fetch_int(m1, b)) {
                (Err(e), _) => StepOutcome::Fail(m1, e),
                (Ok(_), Err(e)) => StepOutcome::Fail(m1, e),
                (Ok(x), Ok(y)) => StepOutcome::Next(
                    bump_ip(store(m1, d, ValueModel::Bool(x < y))),
                ),
            }
        },
        InstructionModel::GtInt(d, a, b) => {
            let m1 = with_frame(m, "Instruction::GtInt"@, 283);
            match (fetch_int(m1, a), fetch_int(m1, b)) {
                (Err(e), _) => StepOutcome::Fail(m1, e),
                (Ok(_), Err(e)) => StepOutcome::Fail(m1, e),
                (Ok(x), Ok(y)) => StepOutcome::Next(
                    bump_ip(store(m1, d, ValueModel::Bool(x > y))),
                ),
            }
        },
        InstructionModel::LtFlt(d, a, b) => {
            let m1 = with_frame(m, "Instruction::LtFlt"@, 295);
            match (fetch_float(m1, a), fetch_float(m1, b)) {
                (Err(e), _) => StepOutcome::Fail(m1, e),
                (Ok(_), Err(e)) => StepOutcome::Fail(m1, e),
                (Ok(x), Ok(y)) => StepOutcome::Next(
                    bump_ip(store(m1, d, ValueModel::Bool(flt_lt_bits(x, y)))),
                ),
            }
        },
        InstructionModel::GtFlt(d, a, b) => {
            let m1 = with_frame(m, "Instruction::GtFlt"@, 307);
            match (fetch_float(m1, a), fetch_float(m1, b)) {
                (Err(e), _) => StepOutcome::Fail(m1, e),
                (Ok(_), Err(e)) => StepOutcome::Fail(m1, e),
                (Ok(x), Ok(y)) => StepOutcome::Next(
                    bump_ip(store(m1, d, ValueModel::Bool(flt_gt_bits(x, y)))),
                ),
            }
        },
        InstructionModel::EqBool(d, a, b) => {
            let m1 = with_frame(m, "Instruction::EqBool"@, 319);
            match (fetch_bool(m1, a), fetch_bool(m1, b)) {
                (Err(e), _) => StepOutcome::Fail(m1, e),
                (Ok(_), Err(e)) => StepOutcome::Fail(m1, e),
                (Ok(x), Ok(y)) => StepOutcome::Next(
                    bump_ip(store(m1, d, ValueModel::Bool(x == y))),
                ),
            }
        },
        InstructionModel::Print(what) => {
            let m1 = with_frame(m, "Instruction::Print"@, 331);
            match what {
                crate::value::ValueOrRegisterModel::Text(s) => StepOutcome::Next(
                    bump_ip(with_output(m1, s)),
                ),
                crate::value::ValueOrRegisterModel::Reg(r) => StepOutcome::Next(
                    bump_ip(with_output(m1, value_text(m1.reg(r)))),
                ),
            }
        },
        InstructionModel::CreateArray(r) => {
            let m1 = with_frame(m, "Instruction::CreateArray"@, 347);
            StepOutcome::Next(bump_ip(store(m1, r, ValueModel::Array(Seq::empty()))))
        },
        InstructionModel::ArrayAdd(r, v) => {
            let m1 = with_frame(m, "Instruction::ArrayAdd"@, 357);
            match fetch_array(m1, r) {
                Err(e) => StepOutcome::Fail(m1, e),
                Ok(es) => StepOutcome::Next(
                    bump_ip(store(m1, r, ValueModel::Array(es.push(v)))),
                ),
            }
        },
        InstructionModel::GetArrayElemPtr(d, a, index) => {
            let m1 = with_frame(m, "Instruction::GetArrayElemPtr"@, 371);
            match fetch_array(m1, a) {
                Err(e) => StepOutcome::Fail(m1, e),
                Ok(es) => if index < es.len() {
                    StepOutcome::Next(bump_ip(store(m1, d, es[index as int])))
                } else {
                    StepOutcome::Fail(m1, ErrorModel::ArrayIndexOutOfBounds(index))
                },
            }
        },
        InstructionModel::GetArrayLength(a, d) => {
            let m1 = with_frame(m, "Instruction::GetArrayLength"@, 396);
            match fetch_array(m1, a) {
                Err(e) => StepOutcome::Fail(m1, e),
                Ok(es) => StepOutcome::Next(
                    bump_ip(store(m1, d, ValueModel::Int(len_as_int(es.len())))),
                ),
            }
        },
        InstructionModel::Push(v) => {
            let m1 = with_frame(m, "Instruction::Push"@, 411);
            StepOutcome::Next(bump_ip(MachineModel { stack: m1.stack.push(v), ..m1 }))
        },
        InstructionModel::Pop(r) => {
            let m1 = with_frame(m, "Instruction::Pop"@, 421);
            if m1.stack.len() == 0 {
                StepOutcome::Fail(m1, ErrorModel::StackUnderflow)
            } else {
                let top = m1.stack.last();
                let m2 = MachineModel { stack: m1.stack.drop_last(), ..m1 };
                StepOutcome::Next(bump_ip(store(m2, r, top)))
            }
        },
        InstructionModel::CopyReg(d, s) => {
            let m1 = with_frame(m, "Instruction::CopyReg"@, 484);
            StepOutcome::Next(bump_ip(store(m1, d, m1.reg(s))))
        },
        InstructionModel::Halt => StepOutcome::Stop(m),
    }
}

/// The outcome of running a program: the final state, and the error
/// if one aborted the sequence.
#[verifier::ext_equal]
pub struct RunResult {
    pub state: MachineModel,
    pub error: Option<ErrorModel>,
}

/// Running a program from a state: instructions are consumed strictly
/// in order; `Halt` and the end of the sequence succeed; a failure
/// aborts the rest and is reported. Effects already committed stay.
pub open spec fn run(m: MachineModel, p: Seq<InstructionModel>) -> RunResult
    decreases p.len(),
{
    if p.len() == 0 {
        RunResult { state: m, error: None }
    } else {
        match step(m, p[0]) {
            StepOutcome::Next(m2) => run(m2, p.drop_first()),
            StepOutcome::Stop(m2) => RunResult { state: m2, error: None },
            StepOutcome::Fail(m2, e) => RunResult { state: m2, error: Some(e) },
        }
    }
}

/// The state `execute` starts its loop from: the entry record is
/// appended to the diagnostic trail before the first instruction.
pub open spec fn launch(m: MachineModel) -> MachineModel {
    with_frame(m, "execute()"@, 80)
}

/// One instruction keeps the machine well-formed, whatever its
/// outcome.
pub proof fn lemma_step_wf(m: MachineModel, instr: InstructionModel)
    requires
        m.wf(),
    ensures
        match step(m, instr) {
            StepOutcome::Next(m2) => m2.wf(),
            StepOutcome::Stop(m2) => m2.wf(),
            StepOutcome::Fail(m2, _) => m2.wf(),
        },
{
}

} // verus!
