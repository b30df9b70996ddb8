//! Laws of the machine's semantics: what holds of every program and
//! every state, proved once and for all over the functions of
//! `semantics`.

use vstd::prelude::*;
use crate::register::Register;
use crate::value::ValueModel;
use crate::error::ErrorModel;
use crate::instruction::InstructionModel;
use crate::float_ops::flt_is_zero_bits;
use crate::semantics::{MachineModel, StepOutcome, step, run, launch, REG_COUNT};

verus! {

/// Whether an instruction writes the given register: it names it as
/// a destination, or appends to the array it holds.
pub open spec fn writes_register(instr: InstructionModel, r: Register) -> bool {
    match instr {
        InstructionModel::LoadInt(d, _) => d == r,
        InstructionModel::LoadFlt(d, _) => d == r,
        InstructionModel::LoadStr(d, _) => d == r,
        InstructionModel::LoadBool(d, _) => d == r,
        InstructionModel::AddInt(d, _, _) => d == r,
        InstructionModel::AddFlt(d, _, _) => d == r,
        InstructionModel::SubInt(d, _, _) => d == r,
        InstructionModel::SubFlt(d, _, _) => d == r,
        InstructionModel::MulInt(d, _, _) => d == r,
        InstructionModel::MulFlt(d, _, _) => d == r,
        InstructionModel::DivInt(d, _, _) => d == r,
        InstructionModel::DivFlt(d, _, _) => d == r,
        InstructionModel::ConcatStrings(d, _, _) => d == r,
        InstructionModel::AndBool(d, _, _) => d == r,
        InstructionModel::OrBool(d, _, _) => d == r,
        InstructionModel::LtInt(d, _, _) => d == r,
        InstructionModel::GtInt(d, _, _) => d == r,
        InstructionModel::LtFlt(d, _, _) => d == r,
        InstructionModel::GtFlt(d, _, _) => d == r,
        InstructionModel::EqBool(d, _, _) => d == r,
        InstructionModel::Print(_) => false,
        InstructionModel::CreateArray(d) => d == r,
        InstructionModel::ArrayAdd(d, _) => d == r,
        InstructionModel::GetArrayElemPtr(d, _, _) => d == r,
        InstructionModel::GetArrayLength(_, d) => d == r,
        InstructionModel::Push(_) => false,
        InstructionModel::Pop(d) => d == r,
        InstructionModel::CopyReg(d, _) => d == r,
        InstructionModel::Halt => false,
    }
}

/// A machine starts with exactly its fixed number of register slots,
/// every one of them null.
pub proof fn lemma_initial_registers()
    ensures
        MachineModel::initial().registers.len() == REG_COUNT,
        forall|i: int|
            0 <= i < REG_COUNT ==> MachineModel::initial().registers[i] == ValueModel::Null,
{
}

/// One instruction that does not write a register leaves that
/// register's slot as it was, whatever the outcome.
pub proof fn lemma_step_register_untouched(
    m: MachineModel,
    instr: InstructionModel,
    r: Register,
)
    requires
        m.wf(),
        !writes_register(instr, r),
    ensures
        match step(m, instr) {
            StepOutcome::Next(m2) => m2.registers[r.0 as int] == m.registers[r.0 as int],
            StepOutcome::Stop(m2) => m2.registers[r.0 as int] == m.registers[r.0 as int],
            StepOutcome::Fail(m2, _) => m2.registers[r.0 as int] == m.registers[r.0 as int],
        },
{
        match instr {
            InstructionModel::LoadInt(d, _) => {
                assert(d.0 != r.0);
            },
            InstructionModel::LoadFlt(d, _) => {
                assert(d.0 != r.0);
            },
            InstructionModel::LoadStr(d, _) => {
                assert(d.0 != r.0);
            },
            InstructionModel::LoadBool(d, _) => {
                assert(d.0 != r.0);
            },
            InstructionModel::AddInt(d, _, _) => {
                assert(d.0 != r.0);
            },
            InstructionModel::AddFlt(d, _, _) => {
                assert(d.0 != r.0);
            },
            InstructionModel::SubInt(d, _, _) => {
                assert(d.0 != r.0);
            },
            InstructionModel::SubFlt(d, _, _) => {
                assert(d.0 != r.0);
            },
            InstructionModel::MulInt(d, _, _) => {
                assert(d.0 != r.0);
            },
            InstructionModel::MulFlt(d, _, _) => {
                assert(d.0 != r.0);
            },
            InstructionModel::DivInt(d, _, _) => {
                assert(d.0 != r.0);
            },
            InstructionModel::DivFlt(d, _, _) => {
                assert(d.0 != r.0);
            },
            InstructionModel::ConcatStrings(d, _, _) => {
                assert(d.0 != r.0);
            },
            InstructionModel::AndBool(d, _, _) => {
                assert(d.0 != r.0);
            },
            InstructionModel::OrBool(d, _, _) => {
                assert(d.0 != r.0);
            },
            InstructionModel::LtInt(d, _, _) => {
                assert(d.0 != r.0);
            },
            InstructionModel::GtInt(d, _, _) => {
                assert(d.0 != r.0);
            },
            InstructionModel::LtFlt(d, _, _) => {
                assert(d.0 != r.0);
            },
            InstructionModel::GtFlt(d, _, _) => {
                assert(d.0 != r.0);
            },
            InstructionModel::EqBool(d, _, _) => {
                assert(d.0 != r.0);
            },
            InstructionModel::CreateArray(d) => {
                assert(d.0 != r.0);
            },
            InstructionModel::ArrayAdd(d, _) => {
                assert(d.0 != r.0);
            },
            InstructionModel::GetArrayElemPtr(d, _, _) => {
                assert(d.0 != r.0);
            },
            InstructionModel::Pop(d) => {
                assert(d.0 != r.0);
            },
            InstructionModel::CopyReg(d, _) => {
                assert(d.0 != r.0);
            },
            InstructionModel::GetArrayLength(_, d) => {
                assert(d.0 != r.0);
            },
            InstructionModel::Print(_) => {},
            InstructionModel::Push(_) => {},
            InstructionModel::Halt => {},
        }
}

/// A whole program that never writes a register leaves that
/// register's slot as it was.
pub proof fn lemma_run_register_untouched(
    m: MachineModel,
    p: Seq<InstructionModel>,
    r: Register,
)
    requires
        m.wf(),
        forall|j: int| 0 <= j < p.len() ==> !writes_register(#[trigger] p[j], r),
    ensures
        run(m, p).state.registers[r.0 as int] == m.registers[r.0 as int],
    decreases p.len(),
{
    if p.len() > 0 {
        lemma_step_register_untouched(m, p[0], r);
        crate::semantics::lemma_step_wf(m, p[0]);
        match step(m, p[0]) {
            StepOutcome::Next(m2) => {
                assert(forall|j: int|
                    0 <= j < p.drop_first().len() ==> !writes_register(
                        #[trigger] p.drop_first()[j],
                        r,
                    ));
                lemma_run_register_untouched(m2, p.drop_first(), r);
            },
            StepOutcome::Stop(_) => {},
            StepOutcome::Fail(_, _) => {},
        }
    }
}

/// A register that a program never writes still reads null after the
/// program has run on a fresh machine.
pub proof fn lemma_unwritten_register_reads_null(p: Seq<InstructionModel>, r: Register)
    requires
        forall|j: int| 0 <= j < p.len() ==> !writes_register(#[trigger] p[j], r),
    ensures
        run(launch(MachineModel::initial()), p).state.reg(r) == ValueModel::Null,
{
    lemma_run_register_untouched(launch(MachineModel::initial()), p, r);
}

/// Integer division by a zero divisor always fails with the
/// division-by-zero error and writes no register.
pub proof fn lemma_div_int_by_zero(m: MachineModel, d: Register, a: Register, b: Register)
    requires
        m.reg(a) is Int,
        m.reg(b) == ValueModel::Int(0),
    ensures
        ({
            let out = step(m, InstructionModel::DivInt(d, a, b));
            &&& out is Fail
            &&& out->Fail_1 == ErrorModel::DivisionByZero
            &&& out->Fail_0.registers == m.registers
            &&& out->Fail_0.stack == m.stack
        }),
{
}

/// Float division by a zero divisor (either sign of zero) always
/// fails with the division-by-zero error and writes no register.
pub proof fn lemma_div_flt_by_zero(m: MachineModel, d: Register, a: Register, b: Register)
    requires
        m.reg(a) is Float,
        m.reg(b) is Float,
        flt_is_zero_bits(m.reg(b)->Float_0),
    ensures
        ({
            let out = step(m, InstructionModel::DivFlt(d, a, b));
            &&& out is Fail
            &&& out->Fail_1 == ErrorModel::DivisionByZero
            &&& out->Fail_0.registers == m.registers
            &&& out->Fail_0.stack == m.stack
        }),
{
}

/// Appending to a register that does not hold an array always fails
/// with the expected-type error naming that register.
pub proof fn lemma_array_add_type_error(m: MachineModel, r: Register, v: ValueModel)
    requires
        !(m.reg(r) is Array),
    ensures
        ({
            let out = step(m, InstructionModel::ArrayAdd(r, v));
            &&& out is Fail
            &&& out->Fail_1 == ErrorModel::ExpectedType("array"@, r)
            &&& out->Fail_0.registers == m.registers
        }),
{
}

/// Fetching an element from a register that does not hold an array
/// always fails with the expected-type error naming that register.
pub proof fn lemma_get_elem_type_error(
    m: MachineModel,
    d: Register,
    a: Register,
    index: usize,
)
    requires
        !(m.reg(a) is Array),
    ensures
        ({
            let out = step(m, InstructionModel::GetArrayElemPtr(d, a, index));
            &&& out is Fail
            &&& out->Fail_1 == ErrorModel::ExpectedType("array"@, a)
            &&& out->Fail_0.registers == m.registers
        }),
{
}

/// Taking the length of a register that does not hold an array always
/// fails with the expected-type error naming that register.
pub proof fn lemma_get_length_type_error(m: MachineModel, a: Register, d: Register)
    requires
        !(m.reg(a) is Array),
    ensures
        ({
            let out = step(m, InstructionModel::GetArrayLength(a, d));
            &&& out is Fail
            &&& out->Fail_1 == ErrorModel::ExpectedType("array"@, a)
            &&& out->Fail_0.registers == m.registers
        }),
{
}

/// Fetching an array element: an index beyond the element count
/// always fails with the out-of-bounds error carrying that index and
/// writes no register; an index in range stores a copy equal to the
/// stored element.
pub proof fn lemma_get_elem(m: MachineModel, d: Register, a: Register, index: usize)
    requires
        m.wf(),
        m.reg(a) is Array,
    ensures
        ({
            let es = m.reg(a)->Array_0;
            let out = step(m, InstructionModel::GetArrayElemPtr(d, a, index));
            if index < es.len() {
                &&& out is Next
                &&& out->Next_0.reg(d) == es[index as int]
            } else {
                &&& out is Fail
                &&& out->Fail_1 == ErrorModel::ArrayIndexOutOfBounds(index)
                &&& out->Fail_0.registers == m.registers
            }
        }),
{
}

/// Popping from an empty stack always fails with the stack-underflow
/// error; the stack and the registers are untouched.
pub proof fn lemma_pop_empty(m: MachineModel, r: Register)
    requires
        m.stack.len() == 0,
    ensures
        ({
            let out = step(m, InstructionModel::Pop(r));
            &&& out is Fail
            &&& out->Fail_1 == ErrorModel::StackUnderflow
            &&& out->Fail_0.registers == m.registers
            &&& out->Fail_0.stack == m.stack
        }),
{
}

/// Pushing a value and popping it back succeeds from any state,
/// stores that very value in the destination register, and leaves
/// the stack as it was.
pub proof fn lemma_push_then_pop(m: MachineModel, v: ValueModel, r: Register)
    requires
        m.wf(),
    ensures
        ({
            let out = run(m, seq![InstructionModel::Push(v), InstructionModel::Pop(r)]);
            &&& out.error is None
            &&& out.state.reg(r) == v
            &&& out.state.stack == m.stack
        }),
{
    let p = seq![InstructionModel::Push(v), InstructionModel::Pop(r)];
    assert(p[0] == InstructionModel::Push(v));
    assert(step(m, p[0]) is Next);
    let m1 = step(m, p[0])->Next_0;
    assert(m1.stack == m.stack.push(v));
    assert(p.drop_first() =~= seq![InstructionModel::Pop(r)]);
    assert(m1.stack.len() > 0);
    assert(step(m1, InstructionModel::Pop(r)) is Next);
    let m3 = step(m1, InstructionModel::Pop(r))->Next_0;
    assert(m1.stack.last() == v);
    assert(m1.registers == m.registers);
    assert(m3.registers == m1.registers.update(r.0 as int, v));
    assert(m3.reg(r) == v);
    assert(seq![InstructionModel::Pop(r)].drop_first() =~= Seq::<InstructionModel>::empty());
    assert(m3.stack == m1.stack.drop_last());
    assert(m.stack.push(v).drop_last() =~= m.stack);
    assert(m3.stack == m.stack);
    assert(run(m, p) == run(m1, p.drop_first()));
    assert(p.drop_first()[0] == InstructionModel::Pop(r));
    assert(run(m1, p.drop_first()) == run(m3, p.drop_first().drop_first()));
    assert(p.drop_first().drop_first() =~= Seq::<InstructionModel>::empty());
    assert(run(m, p).state == m3);
}

/// Everything after a `Halt` never executes: the run of a program is
/// the run of its prefix up to and including the first `Halt`, so the
/// instructions beyond it touch neither registers, stack, output nor
/// the diagnostic trail.
pub proof fn lemma_halt_stops(
    m: MachineModel,
    before: Seq<InstructionModel>,
    after: Seq<InstructionModel>,
)
    ensures
        run(m, before + seq![InstructionModel::Halt] + after) == run(
            m,
            before + seq![InstructionModel::Halt],
        ),
    decreases before.len(),
{
    let halted = before + seq![InstructionModel::Halt];
    let full = before + seq![InstructionModel::Halt] + after;
    if before.len() == 0 {
        assert(full[0] == InstructionModel::Halt);
        assert(halted[0] == InstructionModel::Halt);
    } else {
        assert(full[0] == before[0]);
        assert(halted[0] == before[0]);
        match step(m, before[0]) {
            StepOutcome::Next(m2) => {
                assert(full.drop_first() =~= before.drop_first() + seq![InstructionModel::Halt]
                    + after);
                assert(halted.drop_first() =~= before.drop_first() + seq![
                    InstructionModel::Halt,
                ]);
                lemma_halt_stops(m2, before.drop_first(), after);
            },
            StepOutcome::Stop(_) => {},
            StepOutcome::Fail(_, _) => {},
        }
    }
}


} // verus!
