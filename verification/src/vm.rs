//! The virtual machine: the register file, the operand stack, the
//! diagnostic trail, and the interpreter loop, proved to follow the
//! semantics in `semantics` exactly.

use vstd::prelude::*;
use vstd::pervasive::VecAdditionalExecFns;
use crate::register::Register;
use crate::frame::{StackFrame, FrameModel, frames_model, lemma_frames_model};
use crate::text::{nat_text, u32_to_string, usize_to_string};
use crate::value::{Value, ValueModel, ValueOrRegister, value_text, array_model, lemma_array_model};
use crate::error::{Error, Color, color_code};
use crate::instruction::{Instruction, program_model, lemma_program_model};
use crate::float_ops::{flt_add, flt_sub, flt_mul, flt_div, flt_lt, flt_gt, flt_is_zero};
use crate::semantics::{
    MachineModel,
    REG_COUNT,
    fetch_int,
    fetch_float,
    fetch_string,
    fetch_bool,
    fetch_array,
    with_frame,
    store,
    bump_ip,
    step,
    StepOutcome,
    run,
    RunResult,
    launch,
};

verus! {

/// The virtual machine: a fixed register file, an operand stack, the
/// diagnostic trail, the count of instructions executed, and the text
/// the `Print` instruction has emitted so far (the caller takes and
/// writes it out).
#[derive(Debug)]
pub struct BoltVM {
    pub registers: Vec<Value>,
    pub stack: Vec<Value>,
    pub frames: Vec<StackFrame>,
    pub instruction_pointer: usize,
    pub output: String,
}

impl View for BoltVM {
    type V = MachineModel;

    open spec fn view(&self) -> MachineModel {
        MachineModel {
            registers: array_model(self.registers@),
            stack: array_model(self.stack@),
            frames: frames_model(self.frames@),
            output: self.output@,
            instruction_pointer: self.instruction_pointer,
        }
    }
}

impl BoltVM {
    /// Well-formedness: the register file holds exactly its fixed
    /// number of slots. Construction establishes it and every
    /// operation preserves it.
    pub open spec fn wf(&self) -> bool {
        self@.wf()
    }

    /// A fresh machine: every register null, stack and trail empty,
    /// no instruction executed, nothing emitted.
    pub fn new() -> (vm: BoltVM)
        ensures
            vm@ == MachineModel::initial(),
            vm.wf(),
    {
        let mut regs: Vec<Value> = Vec::new();
        let mut i: usize = 0;
        while i < REG_COUNT
            invariant
                i <= REG_COUNT,
                regs@.len() == i,
                forall|k: int| 0 <= k < i ==> regs@[k] == Value::Null,
            decreases REG_COUNT - i,
        {
            regs.push(Value::Null);
            i = i + 1;
        }
        let vm = BoltVM {
            registers: regs,
            stack: Vec::new(),
            frames: Vec::new(),
            instruction_pointer: 0,
            output: String::new(),
        };
        proof {
            broadcast use lemma_array_model, lemma_frames_model;

            assert(vm@.registers =~= MachineModel::initial().registers);
            assert(vm@.stack =~= MachineModel::initial().stack);
            assert(vm@.frames =~= MachineModel::initial().frames);
            assert(vm@.output =~= MachineModel::initial().output);
            assert(vm@ =~= MachineModel::initial());
        }
        vm
    }

    /// The current value of a register, as an independent copy.
    /// Reading never fails: the register type's own domain keeps the
    /// index in range.
    pub fn read(&self, register: Register) -> (v: Value)
        requires
            self.wf(),
        ensures
            v@ == self@.reg(register),
    {
        proof {
            broadcast use lemma_array_model;
        }
        self.registers[register.as_index()].duplicate()
    }

    /// Overwrite a register with a value. Writing never fails.
    pub fn write(&mut self, register: Register, value: Value)
        requires
            old(self).wf(),
        ensures
            final(self)@ == store(old(self)@, register, value@),
            final(self).wf(),
    {
        proof {
            broadcast use lemma_array_model;
        }
        let ghost prior = self@;
        let idx = register.as_index();
        self.registers.set(idx, value);
        proof {
            assert(self@.registers =~= store(prior, register, value@).registers);
            assert(self@ =~= store(prior, register, value@));
        }
    }

    /// Append one record to the diagnostic trail.
    fn push_frame(&mut self, function_name: &str, line: u32)
        ensures
            final(self)@ == with_frame(old(self)@, function_name@, line),
    {
        proof {
            broadcast use lemma_frames_model;
        }
        let ghost prior = self@;
        self.frames.push(
            StackFrame {
                file_name: String::from_str("boltvm"),
                function_name: String::from_str(function_name),
                line,
            },
        );
        proof {
            assert(self@.frames =~= with_frame(prior, function_name@, line).frames);
            assert(self@ =~= with_frame(prior, function_name@, line));
        }
    }

    /// Count one executed instruction; the counter saturates rather
    /// than wrapping.
    fn increment_ip(&mut self)
        ensures
            final(self)@ == bump_ip(old(self)@),
    {
        if self.instruction_pointer < usize::MAX {
            self.instruction_pointer = self.instruction_pointer + 1;
        }
        proof {
            assert(self@ =~= bump_ip(old(self)@));
        }
    }

    /// Typed fetch of an integer register.
    fn get_int(&self, register: Register) -> (r: Result<i32, Error>)
        requires
            self.wf(),
        ensures
            match r {
                Ok(v) => fetch_int(self@, register) == Ok::<i32, crate::error::ErrorModel>(v),
                Err(e) => fetch_int(self@, register) == Err::<i32, crate::error::ErrorModel>(e@),
            },
    {
        proof {
            broadcast use lemma_array_model;
        }
        match self.registers[register.as_index()] {
            Value::Int(value) => Ok(value),
            _ => Err(Error::ExpectedType(String::from_str("int"), register)),
        }
    }

    /// Typed fetch of a float register, as its bit pattern.
    fn get_float(&self, register: Register) -> (r: Result<u32, Error>)
        requires
            self.wf(),
        ensures
            match r {
                Ok(v) => fetch_float(self@, register) == Ok::<u32, crate::error::ErrorModel>(v),
                Err(e) => fetch_float(self@, register) == Err::<u32, crate::error::ErrorModel>(
                    e@,
                ),
            },
    {
        proof {
            broadcast use lemma_array_model;
        }
        match self.registers[register.as_index()] {
            Value::Float(value) => Ok(value),
            _ => Err(Error::ExpectedType(String::from_str("float"), register)),
        }
    }

    /// Typed fetch of a string register, as an independent copy.
    fn get_string(&self, register: Register) -> (r: Result<String, Error>)
        requires
            self.wf(),
        ensures
            match r {
                Ok(v) => fetch_string(self@, register) == Ok::<
                    Seq<char>,
                    crate::error::ErrorModel,
                >(v@),
                Err(e) => fetch_string(self@, register) == Err::<
                    Seq<char>,
                    crate::error::ErrorModel,
                >(e@),
            },
    {
        proof {
            broadcast use lemma_array_model;
        }
        match &self.registers[register.as_index()] {
            Value::String(value) => Ok(value.clone()),
            _ => Err(Error::ExpectedType(String::from_str("string"), register)),
        }
    }

    /// Typed fetch of a boolean register.
    fn get_bool(&self, register: Register) -> (r: Result<bool, Error>)
        requires
            self.wf(),
        ensures
            match r {
                Ok(v) => fetch_bool(self@, register) == Ok::<bool, crate::error::ErrorModel>(v),
                Err(e) => fetch_bool(self@, register) == Err::<bool, crate::error::ErrorModel>(
                    e@,
                ),
            },
    {
        proof {
            broadcast use lemma_array_model;
        }
        match self.registers[register.as_index()] {
            Value::Bool(value) => Ok(value),
            _ => Err(Error::ExpectedType(String::from_str("bool"), register)),
        }
    }

    /// Typed fetch of an array register, as an independent copy of
    /// its elements.
    fn get_array(&self, register: Register) -> (r: Result<Vec<Value>, Error>)
        requires
            self.wf(),
        ensures
            match r {
                Ok(v) => fetch_array(self@, register) == Ok::<
                    Seq<ValueModel>,
                    crate::error::ErrorModel,
                >(array_model(v@)),
                Err(e) => fetch_array(self@, register) == Err::<
                    Seq<ValueModel>,
                    crate::error::ErrorModel,
                >(e@),
            },
    {
        proof {
            broadcast use lemma_array_model;
        }
        let copy = self.registers[register.as_index()].duplicate();
        match copy {
            Value::Array(value) => Ok(value),
            _ => Err(Error::ExpectedType(String::from_str("array"), register)),
        }
    }
}


/// What one executed instruction asks of the interpreter loop:
/// continue with the next instruction, stop with success, or abort
/// with an error.
enum Flow {
    Continue,
    Halted,
    Failed(Error),
}

impl BoltVM {
    /// Append emitted text to the machine's output.
    fn append_output(&mut self, text: &str)
        ensures
            final(self)@ == crate::semantics::with_output(old(self)@, text@),
    {
        self.output.append(text);
        proof {
            assert(self@ =~= crate::semantics::with_output(old(self)@, text@));
        }
    }

    /// Perform one instruction: append its diagnostic record, then
    /// its effect, exactly as `step` describes.
    fn step_exec(&mut self, instruction: &Instruction) -> (flow: Flow)
        requires
            old(self).wf(),
        ensures
            final(self).wf(),
            match flow {
                Flow::Continue => step(old(self)@, instruction@) == StepOutcome::Next(
                    final(self)@,
                ),
                Flow::Halted => step(old(self)@, instruction@) == StepOutcome::Stop(final(self)@),
                Flow::Failed(e) => step(old(self)@, instruction@) == StepOutcome::Fail(
                    final(self)@,
                    e@,
                ),
            },
    {
        proof {
            broadcast use lemma_array_model;
        }
        match instruction {
            Instruction::LoadInt(register, value) => {
                self.push_frame("Instruction::LoadInt", 80);
                self.write(*register, Value::Int(*value));
                self.increment_ip();
                Flow::Continue
            },
            Instruction::LoadFlt(register, value) => {
                self.push_frame("Instruction::LoadFlt", 99);
                self.write(*register, Value::Float(*value));
                self.increment_ip();
                Flow::Continue
            },
            Instruction::LoadStr(register, value) => {
                self.push_frame("Instruction::LoadStr", 109);
                self.write(*register, Value::String(value.clone()));
                self.increment_ip();
                Flow::Continue
            },
            Instruction::LoadBool(register, value) => {
                self.push_frame("Instruction::LoadBool", 119);
                self.write(*register, Value::Bool(*value));
                self.increment_ip();
                Flow::Continue
            },
            Instruction::AddInt(dst, src1, src2) => {
                self.push_frame("Instruction::AddInt", 129);
                let a = match self.get_int(*src1) {
                    Ok(v) => v,
                    Err(e) => return Flow::Failed(e),
                };
                let b = match self.get_int(*src2) {
                    Ok(v) => v,
                    Err(e) => return Flow::Failed(e),
                };
                self.write(*dst, Value::Int(a.wrapping_add(b)));
                self.increment_ip();
                Flow::Continue
            },
            Instruction::AddFlt(dst, src1, src2) => {
                self.push_frame("Instruction::AddFlt", 141);
                let a = match self.get_float(*src1) {
                    Ok(v) => v,
                    Err(e) => return Flow::Failed(e),
                };
                let b = match self.get_float(*src2) {
                    Ok(v) => v,
                    Err(e) => return Flow::Failed(e),
                };
                self.write(*dst, Value::Float(flt_add(a, b)));
                self.increment_ip();
                Flow::Continue
            },
            Instruction::SubInt(dst, src1, src2) => {
                self.push_frame("Instruction::SubInt", 153);
                let a = match self.get_int(*src1) {
                    Ok(v) => v,
                    Err(e) => return Flow::Failed(e),
                };
                let b = match self.get_int(*src2) {
                    Ok(v) => v,
                    Err(e) => return Flow::Failed(e),
                };
                self.write(*dst, Value::Int(a.wrapping_sub(b)));
                self.increment_ip();
                Flow::Continue
            },
            Instruction::SubFlt(dst, src1, src2) => {
                self.push_frame("Instruction::SubFlt", 165);
                let a = match self.get_float(*src1) {
                    Ok(v) => v,
                    Err(e) => return Flow::Failed(e),
                };
                let b = match self.get_float(*src2) {
                    Ok(v) => v,
                    Err(e) => return Flow::Failed(e),
                };
                self.write(*dst, Value::Float(flt_sub(a, b)));
                self.increment_ip();
                Flow::Continue
            },
            Instruction::MulInt(dst, src1, src2) => {
                self.push_frame("Instruction::MulInt", 177);
                let a = match self.get_int(*src1) {
                    Ok(v) => v,
                    Err(e) => return Flow::Failed(e),
                };
                let b = match self.get_int(*src2) {
                    Ok(v) => v,
                    Err(e) => return Flow::Failed(e),
                };
                self.write(*dst, Value::Int(a.wrapping_mul(b)));
                self.increment_ip();
                Flow::Continue
            },
            Instruction::MulFlt(dst, src1, src2) => {
                self.push_frame("Instruction::MulFlt", 189);
                let a = match self.get_float(*src1) {
                    Ok(v) => v,
                    Err(e) => return Flow::Failed(e),
                };
                let b = match self.get_float(*src2) {
                    Ok(v) => v,
                    Err(e) => return Flow::Failed(e),
                };
                self.write(*dst, Value::Float(flt_mul(a, b)));
                self.increment_ip();
                Flow::Continue
            },
            Instruction::DivInt(dst, src1, src2) => {
                self.push_frame("Instruction::DivInt", 201);
                let a = match self.get_int(*src1) {
                    Ok(v) => v,
                    Err(e) => return Flow::Failed(e),
                };
                let b = match self.get_int(*src2) {
                    Ok(v) => v,
                    Err(e) => return Flow::Failed(e),
                };
                if b == 0 {
                    return Flow::Failed(Error::DivisionByZero);
                }
                let quotient = match a.checked_div(b) {
                    Some(q) => q,
                    None => i32::MIN,
                };
                self.write(*dst, Value::Int(quotient));
                self.increment_ip();
                Flow::Continue
            },
            Instruction::DivFlt(dst, src1, src2) => {
                self.push_frame("Instruction::DivFlt", 218);
                let a = match self.get_float(*src1) {
                    Ok(v) => v,
                    Err(e) => return Flow::Failed(e),
                };
                let b = match self.get_float(*src2) {
                    Ok(v) => v,
                    Err(e) => return Flow::Failed(e),
                };
                if flt_is_zero(b) {
                    return Flow::Failed(Error::DivisionByZero);
                }
                self.write(*dst, Value::Float(flt_div(a, b)));
                self.increment_ip();
                Flow::Continue
            },
            Instruction::ConcatStrings(dst, src1, src2) => {
                self.push_frame("Instruction::ConcatStrings", 235);
                let a = match self.get_string(*src1) {
                    Ok(v) => v,
                    Err(e) => return Flow::Failed(e),
                };
                let b = match self.get_string(*src2) {
                    Ok(v) => v,
                    Err(e) => return Flow::Failed(e),
                };
                let joined = a.concat(b.as_str());
                self.write(*dst, Value::String(joined));
                self.increment_ip();
                Flow::Continue
            },
            Instruction::AndBool(dst, src1, src2) => {
                self.push_frame("Instruction::AndBool", 247);
                let a = match self.get_bool(*src1) {
                    Ok(v) => v,
                    Err(e) => return Flow::Failed(e),
                };
                let b = match self.get_bool(*src2) {
                    Ok(v) => v,
                    Err(e) => return Flow::Failed(e),
                };
                self.write(*dst, Value::Bool(a && b));
                self.increment_ip();
                Flow::Continue
            },
            Instruction::OrBool(dst, src1, src2) => {
                self.push_frame("Instruction::OrBool", 259);
                let a = match self.get_bool(*src1) {
                    Ok(v) => v,
                    Err(e) => return Flow::Failed(e),
                };
                let b = match self.get_bool(*src2) {
                    Ok(v) => v,
                    Err(e) => return Flow::Failed(e),
                };
                self.write(*dst, Value::Bool(a || b));
                self.increment_ip();
                Flow::Continue
            },
            Instruction::LtInt(dst, src1, src2) => {
                self.push_frame("Instruction::LtInt", 271);
                let a = match self.get_int(*src1) {
                    Ok(v) => v,
                    Err(e) => return Flow::Failed(e),
                };
                let b = match self.get_int(*src2) {
                    Ok(v) => v,
                    Err(e) => return Flow::Failed(e),
                };
                self.write(*dst, Value::Bool(a < b));
                self.increment_ip();
                Flow::Continue
            },
            Instruction::GtInt(dst, src1, src2) => {
                self.push_frame("Instruction::GtInt", 283);
                let a = match self.get_int(*src1) {
                    Ok(v) => v,
                    Err(e) => return Flow::Failed(e),
                };
                let b = match self.get_int(*src2) {
                    Ok(v) => v,
                    Err(e) => return Flow::Failed(e),
                };
                self.write(*dst, Value::Bool(a > b));
                self.increment_ip();
                Flow::Continue
            },
            Instruction::LtFlt(dst, src1, src2) => {
                self.push_frame("Instruction::LtFlt", 295);
                let a = match self.get_float(*src1) {
                    Ok(v) => v,
                    Err(e) => return Flow::Failed(e),
                };
                let b = match self.get_float(*src2) {
                    Ok(v) => v,
                    Err(e) => return Flow::Failed(e),
                };
                self.write(*dst, Value::Bool(flt_lt(a, b)));
                self.increment_ip();
                Flow::Continue
            },
            Instruction::GtFlt(dst, src1, src2) => {
                self.push_frame("Instruction::GtFlt", 307);
                let a = match self.get_float(*src1) {
                    Ok(v) => v,
                    Err(e) => return Flow::Failed(e),
                };
                let b = match self.get_float(*src2) {
                    Ok(v) => v,
                    Err(e) => return Flow::Failed(e),
                };
                self.write(*dst, Value::Bool(flt_gt(a, b)));
                self.increment_ip();
                Flow::Continue
            },
            Instruction::EqBool(dst, src1, src2) => {
                self.push_frame("Instruction::EqBool", 319);
                let a = match self.get_bool(*src1) {
                    Ok(v) => v,
                    Err(e) => return Flow::Failed(e),
                };
                let b = match self.get_bool(*src2) {
                    Ok(v) => v,
                    Err(e) => return Flow::Failed(e),
                };
                self.write(*dst, Value::Bool(a == b));
                self.increment_ip();
                Flow::Continue
            },
            Instruction::Print(value_or_register) => {
                self.push_frame("Instruction::Print", 331);
                match value_or_register {
                    ValueOrRegister::Value(text) => {
                        self.append_output(text.as_str());
                    },
                    ValueOrRegister::Register(register) => {
                        let value = self.read(*register);
                        let text = value.render();
                        self.append_output(text.as_str());
                    },
                }
                self.increment_ip();
                Flow::Continue
            },
            Instruction::CreateArray(register) => {
                self.push_frame("Instruction::CreateArray", 347);
                self.write(*register, Value::Array(Vec::new()));
                proof {
                    assert(array_model(Seq::<Value>::empty()) =~= Seq::<ValueModel>::empty());
                }
                self.increment_ip();
                Flow::Continue
            },
            Instruction::ArrayAdd(register, value) => {
                self.push_frame("Instruction::ArrayAdd", 357);
                let mut elems = match self.get_array(*register) {
                    Ok(v) => v,
                    Err(e) => return Flow::Failed(e),
                };
                let ghost before = elems@;
                elems.push(value.duplicate());
                proof {
                    assert(array_model(elems@) =~= array_model(before).push(value@));
                }
                self.write(*register, Value::Array(elems));
                self.increment_ip();
                Flow::Continue
            },
            Instruction::GetArrayElemPtr(dst, array_src, index) => {
                self.push_frame("Instruction::GetArrayElemPtr", 371);
                let elems = match self.get_array(*array_src) {
                    Ok(v) => v,
                    Err(e) => return Flow::Failed(e),
                };
                if *index < elems.len() {
                    let element = elems[*index].duplicate();
                    self.write(*dst, element);
                    self.increment_ip();
                    Flow::Continue
                } else {
                    Flow::Failed(Error::ArrayIndexOutOfBounds(*index))
                }
            },
            Instruction::GetArrayLength(array_src, dst) => {
                self.push_frame("Instruction::GetArrayLength", 396);
                let elems = match self.get_array(*array_src) {
                    Ok(v) => v,
                    Err(e) => return Flow::Failed(e),
                };
                let length = wrap_len(elems.len());
                proof {
                    assert(array_model(elems@).len() == elems@.len());
                }
                self.write(*dst, Value::Int(length));
                self.increment_ip();
                Flow::Continue
            },
            Instruction::Push(value) => {
                self.push_frame("Instruction::Push", 411);
                let ghost before = self@;
                self.stack.push(value.duplicate());
                proof {
                    assert(self@ =~= MachineModel { stack: before.stack.push(value@), ..before });
                }
                self.increment_ip();
                Flow::Continue
            },
            Instruction::Pop(register) => {
                self.push_frame("Instruction::Pop", 421);
                let ghost before = self@;
                match self.stack.pop() {
                    Some(value) => {
                        proof {
                            assert(self@ =~= MachineModel {
                                stack: before.stack.drop_last(),
                                ..before
                            });
                            assert(value@ == before.stack.last());
                        }
                        self.write(*register, value);
                        self.increment_ip();
                        Flow::Continue
                    },
                    None => Flow::Failed(Error::StackUnderflow),
                }
            },
            Instruction::CopyReg(dst, src) => {
                self.push_frame("Instruction::CopyReg", 484);
                let value = self.read(*src);
                self.write(*dst, value);
                self.increment_ip();
                Flow::Continue
            },
            Instruction::Halt => Flow::Halted,
        }
    }
}

/// An array's element count wrapped into the 32-bit signed range, as
/// storing it in an `Int` does.
fn wrap_len(n: usize) -> (r: i32)
    ensures
        r == crate::semantics::len_as_int(n as nat),
{
    let low: u64 = (n as u64) % 0x1_0000_0000;
    if low > i32::MAX as u64 {
        ((low as i64) - 0x1_0000_0000i64) as i32
    } else {
        low as i32
    }
}



impl BoltVM {
    /// Run a program: consume the instructions strictly in order,
    /// starting at the first, until `Halt`, a failure, or the end of
    /// the sequence. A failure aborts the rest immediately; effects
    /// already committed by completed instructions stay (execution is
    /// not transactional). The outcome is exactly what `run` gives on
    /// the machine's model.
    #[verifier::loop_isolation(false)]
    pub fn execute(&mut self, program: Vec<Instruction>) -> (r: Result<(), Error>)
        requires
            old(self).wf(),
        ensures
            final(self).wf(),
            ({
                let outcome = run(launch(old(self)@), program_model(program@));
                final(self)@ == outcome.state && (match r {
                    Ok(_) => outcome.error is None,
                    Err(e) => outcome.error == Some(e@),
                })
            }),
    {
        proof {
            broadcast use lemma_program_model;
        }
        self.push_frame("execute()", 80);
        let ghost start = self@;
        let ghost pm = program_model(program@);
        proof {
            assert(pm.skip(0) =~= pm);
        }
        let mut i: usize = 0;
        while i < program.len()
            invariant
                i <= program.len(),
                self.wf(),
                run(start, pm) == run(self@, pm.skip(i as int)),
            decreases program.len() - i,
        {
            let ghost before = self@;
            let flow = self.step_exec(&program[i]);
            proof {
                assert(pm.skip(i as int)[0] == pm[i as int]);
                assert(pm.skip(i as int).drop_first() =~= pm.skip(i as int + 1));
            }
            match flow {
                Flow::Continue => {},
                Flow::Halted => {
                    proof {
                        assert(run(before, pm.skip(i as int)) == RunResult {
                            state: self@,
                            error: None::<crate::error::ErrorModel>,
                        });
                    }
                    return Ok(());
                },
                Flow::Failed(error) => {
                    proof {
                        assert(run(before, pm.skip(i as int)) == RunResult {
                            state: self@,
                            error: Some(error@),
                        });
                    }
                    return Err(error);
                },
            }
            i = i + 1;
        }
        proof {
            assert(pm.skip(program.len() as int) =~= Seq::<
                crate::instruction::InstructionModel,
            >::empty());
        }
        Ok(())
    }
}



/// Whether a character sequence begins with the given prefix.
pub open spec fn starts_with(s: Seq<char>, prefix: Seq<char>) -> bool {
    s.len() >= prefix.len() && s.subrange(0, prefix.len() as int) == prefix
}

/// Relies on `str::starts_with`: true exactly when the characters of
/// the prefix open the string.
#[verifier::external_body]
fn str_starts_with(s: &str, prefix: &str) -> (r: bool)
    ensures
        r == starts_with(s@, prefix@),
{
    s.starts_with(prefix)
}

/// The rendered line of one diagnostic record, where it belongs to
/// the engine: records from anywhere else render to nothing.
pub open spec fn frame_line(f: FrameModel) -> Seq<char> {
    if starts_with(f.file_name, "boltvm"@) {
        "\tin '"@ + f.file_name + "' at '"@ + f.function_name + "', line "@ + nat_text(
            f.line as nat,
        ) + "\n"@
    } else {
        Seq::empty()
    }
}

/// The rendered diagnostic trail: the engine's records, one line
/// each, in order.
pub open spec fn trace_text(fs: Seq<FrameModel>) -> Seq<char>
    decreases fs.len(),
{
    if fs.len() == 0 {
        Seq::empty()
    } else {
        trace_text(fs.drop_last()) + frame_line(fs.last())
    }
}

/// What a failure report holds: the rendered trail, or a fixed
/// message when no engine record is there to show.
pub open spec fn trace_report(fs: Seq<FrameModel>) -> Seq<char> {
    if trace_text(fs).len() == 0 {
        "\tno stacktrace"@
    } else {
        trace_text(fs)
    }
}

/// Relies on the `backtrace` crate: captures the native call stack at
/// this point and keeps the frames that carry a symbol name, a file
/// and a line. What comes back depends on the machine, the build and
/// the moment, so nothing is promised of it.
#[verifier::external_body]
fn capture_native_frames() -> (frames: Vec<StackFrame>) {
    let captured = backtrace::Backtrace::new();
    let mut converted: Vec<StackFrame> = Vec::new();
    for frame in captured.frames() {
        let symbol = match frame.symbols().first() { Some(s) => s, None => continue };
        let (name, path, line) = match (symbol.name(), symbol.filename(), symbol.lineno()) {
            (Some(n), Some(p), Some(l)) => (n, p, l),
            _ => continue,
        };
        let base = match path.file_name().and_then(|b| b.to_str()) { Some(b) => b, None => continue };
        converted.push(StackFrame { file_name: base.to_string(), function_name: name.to_string(), line });
    }
    converted
}

impl BoltVM {
    /// The rendered diagnostic trail, one line per engine record.
    #[verifier::loop_isolation(false)]
    pub fn format_stack_frame(&self) -> (r: String)
        ensures
            r@ == trace_text(self@.frames),
    {
        proof {
            broadcast use lemma_frames_model;
        }
        let ghost frames = frames_model(self.frames@);
        let mut result = String::new();
        let mut i: usize = 0;
        while i < self.frames.len()
            invariant
                i <= self.frames.len(),
                result@ == trace_text(frames.take(i as int)),
            decreases self.frames.len() - i,
        {
            let frame = &self.frames[i];
            if str_starts_with(frame.file_name.as_str(), "boltvm") {
                result.append("\tin '");
                result.append(frame.file_name.as_str());
                result.append("' at '");
                result.append(frame.function_name.as_str());
                result.append("', line ");
                let digits = u32_to_string(frame.line);
                result.append(digits.as_str());
                result.append("\n");
            }
            proof {
                assert(frames.take(i + 1).drop_last() =~= frames.take(i as int));
                assert(frames.take(i + 1).last() == frames[i as int]);
            }
            i = i + 1;
        }
        proof {
            assert(frames.take(self.frames@.len() as int) =~= frames);
        }
        result
    }

    /// Capture the native call stack, fold it into the diagnostic
    /// trail, render the trail, and clear it. Registers, stack,
    /// output and the instruction count stay untouched; the report is
    /// the rendered trail of the engine's records and whatever
    /// captured frames qualified, or a fixed message when that trail
    /// is empty.
    pub fn handle_error(&mut self) -> (report: String)
        ensures
            final(self)@.registers == old(self)@.registers,
            final(self)@.stack == old(self)@.stack,
            final(self)@.output == old(self)@.output,
            final(self)@.instruction_pointer == old(self)@.instruction_pointer,
            final(self)@.frames == Seq::<FrameModel>::empty(),
            exists|captured: Seq<FrameModel>|
                report@ == trace_report(old(self)@.frames + captured),
    {
        proof {
            broadcast use lemma_frames_model;
        }
        let ghost entry_frames = frames_model(self.frames@);
        let mut converted = capture_native_frames();
        let ghost captured = frames_model(converted@);
        self.frames.append(&mut converted);
        proof {
            assert(frames_model(self.frames@) =~= entry_frames + captured);
        }
        let trace = self.format_stack_frame();
        let report = if trace.as_str().unicode_len() == 0 {
            String::from_str("\tno stacktrace")
        } else {
            trace
        };
        self.frames.clear();
        proof {
            assert(frames_model(Seq::<StackFrame>::empty()) =~= Seq::<FrameModel>::empty());
            assert(entry_frames == old(self)@.frames);
            assert(report@ == trace_report(old(self)@.frames + captured));
        }
        report
    }
}



/// How many registers hold a value other than null.
pub open spec fn used_count(regs: Seq<ValueModel>) -> nat
    decreases regs.len(),
{
    if regs.len() == 0 {
        0
    } else {
        used_count(regs.drop_last()) + (if regs.last() is Null {
            0nat
        } else {
            1nat
        })
    }
}

/// The dump line of one register: nothing for a null slot, otherwise
/// the colorized name and the rendered value.
pub open spec fn reg_line(index: nat, v: ValueModel) -> Seq<char> {
    if v is Null {
        Seq::empty()
    } else {
        "\t"@ + color_code(Color::Blue) + "r"@ + nat_text(index) + color_code(Color::Reset)
            + ": "@ + value_text(v) + "\n"@
    }
}

/// The dump lines of the register file, in slot order.
pub open spec fn reg_lines(regs: Seq<ValueModel>) -> Seq<char>
    decreases regs.len(),
{
    if regs.len() == 0 {
        Seq::empty()
    } else {
        reg_lines(regs.drop_last()) + reg_line((regs.len() - 1) as nat, regs.last())
    }
}

/// The dump line of one stack slot: the colorized position and the
/// rendered value.
pub open spec fn stack_line(index: nat, v: ValueModel) -> Seq<char> {
    "\t"@ + color_code(Color::Blue) + "s"@ + nat_text(index) + color_code(Color::Reset) + ": "@
        + value_text(v) + "\n"@
}

/// The dump lines of the operand stack, bottom first.
pub open spec fn stack_lines(stack: Seq<ValueModel>) -> Seq<char>
    decreases stack.len(),
{
    if stack.len() == 0 {
        Seq::empty()
    } else {
        stack_lines(stack.drop_last()) + stack_line((stack.len() - 1) as nat, stack.last())
    }
}

/// The full debug dump of a machine: every non-null register, the
/// usage counts, every stack slot or an empty-stack notice, and the
/// count of instructions executed.
pub open spec fn dump_text(m: MachineModel) -> Seq<char> {
    "========== debug dump ==========\n"@ + "registers:\n"@ + reg_lines(m.registers)
        + "\n\tused registers: "@ + color_code(Color::Green) + nat_text(used_count(m.registers))
        + color_code(Color::Reset) + "\n"@ + "\tunused registers: "@ + color_code(Color::Yellow)
        + nat_text((m.registers.len() - used_count(m.registers)) as nat)
        + color_code(Color::Reset) + "\n\n"@ + "stack:\n"@ + (if m.stack.len() > 0 {
        stack_lines(m.stack) + "\n\tvalues still on stack: "@ + color_code(Color::Yellow)
            + nat_text(m.stack.len()) + color_code(Color::Reset) + "\n"@
    } else {
        "\t"@ + color_code(Color::Red) + "stack is empty"@ + color_code(Color::Reset) + "\n\n"@
    }) + "number of instructions executed: "@ + color_code(Color::Blue) + nat_text(
        m.instruction_pointer as nat,
    ) + color_code(Color::Reset) + "\n"@ + "======= end of debug dump ======\n"@
}

impl BoltVM {
    /// The register section of the dump: the lines of all non-null
    /// registers, and how many there are.
    #[verifier::loop_isolation(false)]
    fn dump_registers(&self) -> (r: (String, usize))
        ensures
            r.0@ == reg_lines(array_model(self.registers@)),
            r.1 == used_count(array_model(self.registers@)),
            r.1 <= self.registers@.len(),
    {
        proof {
            broadcast use lemma_array_model;
        }
        let ghost regs = array_model(self.registers@);
        let mut s = String::new();
        let mut used: usize = 0;
        let mut i: usize = 0;
        while i < self.registers.len()
            invariant
                i <= self.registers.len(),
                used <= i,
                used == used_count(regs.take(i as int)),
                s@ == reg_lines(regs.take(i as int)),
            decreases self.registers.len() - i,
        {
            let value = &self.registers[i];
            if !value.is_null() {
                s.append("\t");
                s.append(Color::Blue.code());
                s.append("r");
                let digits = usize_to_string(i);
                s.append(digits.as_str());
                s.append(Color::Reset.code());
                s.append(": ");
                let rendered = value.render();
                s.append(rendered.as_str());
                s.append("\n");
                used = used + 1;
            }
            proof {
                assert(regs.take(i + 1).drop_last() =~= regs.take(i as int));
                assert(regs.take(i + 1).last() == regs[i as int]);
            }
            i = i + 1;
        }
        proof {
            assert(regs.take(self.registers@.len() as int) =~= regs);
        }
        (s, used)
    }

    /// The per-slot lines of the stack section of the dump.
    #[verifier::loop_isolation(false)]
    fn dump_stack(&self) -> (r: String)
        ensures
            r@ == stack_lines(array_model(self.stack@)),
    {
        proof {
            broadcast use lemma_array_model;
        }
        let ghost stack = array_model(self.stack@);
        let mut s = String::new();
        let mut j: usize = 0;
        while j < self.stack.len()
            invariant
                j <= self.stack.len(),
                s@ == stack_lines(stack.take(j as int)),
            decreases self.stack.len() - j,
        {
            s.append("\t");
            s.append(Color::Blue.code());
            s.append("s");
            let digits = usize_to_string(j);
            s.append(digits.as_str());
            s.append(Color::Reset.code());
            s.append(": ");
            let rendered = self.stack[j].render();
            s.append(rendered.as_str());
            s.append("\n");
            proof {
                assert(stack.take(j + 1).drop_last() =~= stack.take(j as int));
                assert(stack.take(j + 1).last() == stack[j as int]);
            }
            j = j + 1;
        }
        proof {
            assert(stack.take(self.stack@.len() as int) =~= stack);
        }
        s
    }

    /// Render the machine's state: all non-null registers, usage
    /// counts, the stack's contents, and how many instructions have
    /// executed. Purely observational; the state is untouched.
    #[verifier::rlimit(60)]
    pub fn debug_dump(&self) -> (r: String)
        ensures
            r@ == dump_text(self@),
    {
        let mut s = String::from_str("========== debug dump ==========\n");
        s.append("registers:\n");
        let (lines, used) = self.dump_registers();
        s.append(lines.as_str());
        let unused = self.registers.len() - used;
        s.append("\n\tused registers: ");
        s.append(Color::Green.code());
        let used_digits = usize_to_string(used);
        s.append(used_digits.as_str());
        s.append(Color::Reset.code());
        s.append("\n");
        s.append("\tunused registers: ");
        s.append(Color::Yellow.code());
        let unused_digits = usize_to_string(unused);
        s.append(unused_digits.as_str());
        s.append(Color::Reset.code());
        s.append("\n\n");
        s.append("stack:\n");
        if self.stack.len() > 0 {
            let stack_text = self.dump_stack();
            s.append(stack_text.as_str());
            s.append("\n\tvalues still on stack: ");
            s.append(Color::Yellow.code());
            let depth = usize_to_string(self.stack.len());
            s.append(depth.as_str());
            s.append(Color::Reset.code());
            s.append("\n");
        } else {
            s.append("\t");
            s.append(Color::Red.code());
            s.append("stack is empty");
            s.append(Color::Reset.code());
            s.append("\n\n");
        }
        s.append("number of instructions executed: ");
        s.append(Color::Blue.code());
        let count = usize_to_string(self.instruction_pointer);
        s.append(count.as_str());
        s.append(Color::Reset.code());
        s.append("\n");
        s.append("======= end of debug dump ======\n");
        s
    }
}


} // verus!
