//! The instructions of the virtual machine: a closed opcode
//! catalogue, each operand a register identifier, an immediate
//! literal, or a raw index.

use vstd::prelude::*;
use crate::register::Register;
use crate::value::{Value, ValueModel, ValueOrRegister, ValueOrRegisterModel};

verus! {

/// One command of the virtual machine. A program is a finite ordered
/// sequence of these, executed strictly in order until `Halt`, a
/// failure, or the end of the sequence. A float immediate is carried
/// as its IEEE 754 single-precision bit pattern.
#[derive(Debug)]
pub enum Instruction {
    /// Write an integer immediate into a register.
    LoadInt(Register, i32),
    /// Write a float immediate (given as its bits) into a register.
    LoadFlt(Register, u32),
    /// Write a string immediate into a register.
    LoadStr(Register, String),
    /// Write a boolean immediate into a register.
    LoadBool(Register, bool),
    /// Add two integer registers and store the sum.
    AddInt(Register, Register, Register),
    /// Add two float registers and store the sum.
    AddFlt(Register, Register, Register),
    /// Subtract two integer registers and store the difference.
    SubInt(Register, Register, Register),
    /// Subtract two float registers and store the difference.
    SubFlt(Register, Register, Register),
    /// Multiply two integer registers and store the product.
    MulInt(Register, Register, Register),
    /// Multiply two float registers and store the product.
    MulFlt(Register, Register, Register),
    /// Divide two integer registers and store the quotient; a zero
    /// divisor fails before the division.
    DivInt(Register, Register, Register),
    /// Divide two float registers and store the quotient; a zero
    /// divisor fails before the division.
    DivFlt(Register, Register, Register),
    /// Concatenate two string registers and store the result.
    ConcatStrings(Register, Register, Register),
    /// Logical AND of two boolean registers.
    AndBool(Register, Register, Register),
    /// Logical OR of two boolean registers.
    OrBool(Register, Register, Register),
    /// Strict less-than of two integer registers, stored as a boolean.
    LtInt(Register, Register, Register),
    /// Strict greater-than of two integer registers, stored as a boolean.
    GtInt(Register, Register, Register),
    /// Strict less-than of two float registers, stored as a boolean.
    LtFlt(Register, Register, Register),
    /// Strict greater-than of two float registers, stored as a boolean.
    GtFlt(Register, Register, Register),
    /// Equality of two boolean registers, stored as a boolean.
    EqBool(Register, Register, Register),
    /// Emit a literal string, or a register's rendered value.
    Print(ValueOrRegister),
    /// Store an empty array in a register.
    CreateArray(Register),
    /// Append an immediate value to the array held in a register.
    ArrayAdd(Register, Value),
    /// Copy the element at an index of one register's array into
    /// another register.
    GetArrayElemPtr(Register, Register, usize),
    /// Store an array's element count, as an integer, in a register.
    GetArrayLength(Register, Register),
    /// Push an immediate value onto the operand stack.
    Push(Value),
    /// Pop the top of the operand stack into a register.
    Pop(Register),
    /// Copy the current value of one register into another.
    CopyReg(Register, Register),
    /// Stop execution immediately, leaving all state as it is.
    Halt,
}

impl Clone for Instruction {
    /// An independent copy carrying the same model.
    fn clone(&self) -> (r: Instruction)
        ensures
            r@ == self@,
    {
        match self {
            Instruction::LoadInt(r, v) => Instruction::LoadInt(*r, *v),
            Instruction::LoadFlt(r, v) => Instruction::LoadFlt(*r, *v),
            Instruction::LoadStr(r, v) => Instruction::LoadStr(*r, v.clone()),
            Instruction::LoadBool(r, v) => Instruction::LoadBool(*r, *v),
            Instruction::AddInt(d, a, b) => Instruction::AddInt(*d, *a, *b),
            Instruction::AddFlt(d, a, b) => Instruction::AddFlt(*d, *a, *b),
            Instruction::SubInt(d, a, b) => Instruction::SubInt(*d, *a, *b),
            Instruction::SubFlt(d, a, b) => Instruction::SubFlt(*d, *a, *b),
            Instruction::MulInt(d, a, b) => Instruction::MulInt(*d, *a, *b),
            Instruction::MulFlt(d, a, b) => Instruction::MulFlt(*d, *a, *b),
            Instruction::DivInt(d, a, b) => Instruction::DivInt(*d, *a, *b),
            Instruction::DivFlt(d, a, b) => Instruction::DivFlt(*d, *a, *b),
            Instruction::ConcatStrings(d, a, b) => Instruction::ConcatStrings(*d, *a, *b),
            Instruction::AndBool(d, a, b) => Instruction::AndBool(*d, *a, *b),
            Instruction::OrBool(d, a, b) => Instruction::OrBool(*d, *a, *b),
            Instruction::LtInt(d, a, b) => Instruction::LtInt(*d, *a, *b),
            Instruction::GtInt(d, a, b) => Instruction::GtInt(*d, *a, *b),
            Instruction::LtFlt(d, a, b) => Instruction::LtFlt(*d, *a, *b),
            Instruction::GtFlt(d, a, b) => Instruction::GtFlt(*d, *a, *b),
            Instruction::EqBool(d, a, b) => Instruction::EqBool(*d, *a, *b),
            Instruction::Print(v) => Instruction::Print(v.clone()),
            Instruction::CreateArray(r) => Instruction::CreateArray(*r),
            Instruction::ArrayAdd(r, v) => Instruction::ArrayAdd(*r, v.clone()),
            Instruction::GetArrayElemPtr(d, a, i) => Instruction::GetArrayElemPtr(*d, *a, *i),
            Instruction::GetArrayLength(a, d) => Instruction::GetArrayLength(*a, *d),
            Instruction::Push(v) => Instruction::Push(v.clone()),
            Instruction::Pop(r) => Instruction::Pop(*r),
            Instruction::CopyReg(d, s) => Instruction::CopyReg(*d, *s),
            Instruction::Halt => Instruction::Halt,
        }
    }
}

/// Mathematical model of an instruction: immediates as their models.
pub enum InstructionModel {
    LoadInt(Register, i32),
    LoadFlt(Register, u32),
    LoadStr(Register, Seq<char>),
    LoadBool(Register, bool),
    AddInt(Register, Register, Register),
    AddFlt(Register, Register, Register),
    SubInt(Register, Register, Register),
    SubFlt(Register, Register, Register),
    MulInt(Register, Register, Register),
    MulFlt(Register, Register, Register),
    DivInt(Register, Register, Register),
    DivFlt(Register, Register, Register),
    ConcatStrings(Register, Register, Register),
    AndBool(Register, Register, Register),
    OrBool(Register, Register, Register),
    LtInt(Register, Register, Register),
    GtInt(Register, Register, Register),
    LtFlt(Register, Register, Register),
    GtFlt(Register, Register, Register),
    EqBool(Register, Register, Register),
    Print(ValueOrRegisterModel),
    CreateArray(Register),
    ArrayAdd(Register, ValueModel),
    GetArrayElemPtr(Register, Register, usize),
    GetArrayLength(Register, Register),
    Push(ValueModel),
    Pop(Register),
    CopyReg(Register, Register),
    Halt,
}

impl View for Instruction {
    type V = InstructionModel;

    open spec fn view(&self) -> InstructionModel {
        match self {
            Instruction::LoadInt(r, v) => InstructionModel::LoadInt(*r, *v),
            Instruction::LoadFlt(r, v) => InstructionModel::LoadFlt(*r, *v),
            Instruction::LoadStr(r, v) => InstructionModel::LoadStr(*r, v@),
            Instruction::LoadBool(r, v) => InstructionModel::LoadBool(*r, *v),
            Instruction::AddInt(d, a, b) => InstructionModel::AddInt(*d, *a, *b),
            Instruction::AddFlt(d, a, b) => InstructionModel::AddFlt(*d, *a, *b),
            Instruction::SubInt(d, a, b) => InstructionModel::SubInt(*d, *a, *b),
            Instruction::SubFlt(d, a, b) => InstructionModel::SubFlt(*d, *a, *b),
            Instruction::MulInt(d, a, b) => InstructionModel::MulInt(*d, *a, *b),
            Instruction::MulFlt(d, a, b) => InstructionModel::MulFlt(*d, *a, *b),
            Instruction::DivInt(d, a, b) => InstructionModel::DivInt(*d, *a, *b),
            Instruction::DivFlt(d, a, b) => InstructionModel::DivFlt(*d, *a, *b),
            Instruction::ConcatStrings(d, a, b) => InstructionModel::ConcatStrings(*d, *a, *b),
            Instruction::AndBool(d, a, b) => InstructionModel::AndBool(*d, *a, *b),
            Instruction::OrBool(d, a, b) => InstructionModel::OrBool(*d, *a, *b),
            Instruction::LtInt(d, a, b) => InstructionModel::LtInt(*d, *a, *b),
            Instruction::GtInt(d, a, b) => InstructionModel::GtInt(*d, *a, *b),
            Instruction::LtFlt(d, a, b) => InstructionModel::LtFlt(*d, *a, *b),
            Instruction::GtFlt(d, a, b) => InstructionModel::GtFlt(*d, *a, *b),
            Instruction::EqBool(d, a, b) => InstructionModel::EqBool(*d, *a, *b),
            Instruction::Print(v) => InstructionModel::Print(v@),
            Instruction::CreateArray(r) => InstructionModel::CreateArray(*r),
            Instruction::ArrayAdd(r, v) => InstructionModel::ArrayAdd(*r, v@),
            Instruction::GetArrayElemPtr(d, a, i) => InstructionModel::GetArrayElemPtr(*d, *a, *i),
            Instruction::GetArrayLength(a, d) => InstructionModel::GetArrayLength(*a, *d),
            Instruction::Push(v) => InstructionModel::Push(v@),
            Instruction::Pop(r) => InstructionModel::Pop(*r),
            Instruction::CopyReg(d, s) => InstructionModel::CopyReg(*d, *s),
            Instruction::Halt => InstructionModel::Halt,
        }
    }
}

/// The models of a sequence of instructions, in order.
pub open spec fn program_model(p: Seq<Instruction>) -> Seq<InstructionModel> {
    Seq::new(
        p.len(),
        |i: int|
            if 0 <= i < p.len() {
                p[i]@
            } else {
                InstructionModel::Halt
            },
    )
}

/// What `program_model` holds: one model per instruction, in order.
pub broadcast proof fn lemma_program_model(p: Seq<Instruction>)
    ensures
        (#[trigger] program_model(p)).len() == p.len(),
        forall|i: int| 0 <= i < p.len() ==> program_model(p)[i] == p[i]@,
{
}

} // verus!
