use boltvm::error::Error;
use boltvm::instruction::Instruction;
use boltvm::register::Register;
use boltvm::value::{Value, ValueOrRegister};
use boltvm::vm::BoltVM;

#[test]
fn fresh_machine_has_65536_null_registers() {
    let vm = BoltVM::new();
    assert_eq!(vm.registers.len(), 65536);
    assert!(vm.registers.iter().all(|v| *v == Value::Null));
    assert!(vm.stack.is_empty());
    assert!(vm.frames.is_empty());
    assert_eq!(vm.instruction_pointer, 0);
    assert_eq!(vm.output, "");
}

#[test]
fn unwritten_registers_read_null() {
    let mut vm = BoltVM::new();
    let program = vec![Instruction::LoadInt(Register(0), 7)];
    assert!(vm.execute(program).is_ok());
    assert_eq!(vm.read(Register(0)), Value::Int(7));
    assert_eq!(vm.read(Register(1)), Value::Null);
    assert_eq!(vm.read(Register(65535)), Value::Null);
}

#[test]
fn load_int_and_copy_reg() {
    let mut vm = BoltVM::new();
    let program = vec![
        Instruction::LoadInt(Register(0), 1000000000),
        Instruction::CopyReg(Register(1), Register(0)),
    ];
    assert!(vm.execute(program).is_ok());
    assert_eq!(vm.read(Register(0)), Value::Int(1000000000));
    assert_eq!(vm.read(Register(1)), Value::Int(1000000000));
}

#[test]
fn div_flt_by_zero_reports_and_leaves_destination_null() {
    let mut vm = BoltVM::new();
    let program = vec![
        Instruction::LoadFlt(Register(1), (1.1f32).to_bits()),
        Instruction::LoadFlt(Register(2), (0.0f32).to_bits()),
        Instruction::DivFlt(Register(3), Register(1), Register(2)),
    ];
    assert_eq!(vm.execute(program), Err(Error::DivisionByZero));
    assert_eq!(vm.read(Register(3)), Value::Null);
}

#[test]
fn div_flt_by_negative_zero_also_fails() {
    let mut vm = BoltVM::new();
    let program = vec![
        Instruction::LoadFlt(Register(1), (1.5f32).to_bits()),
        Instruction::LoadFlt(Register(2), (-0.0f32).to_bits()),
        Instruction::DivFlt(Register(3), Register(1), Register(2)),
    ];
    assert_eq!(vm.execute(program), Err(Error::DivisionByZero));
    assert_eq!(vm.read(Register(3)), Value::Null);
}

#[test]
fn div_int_by_zero_reports_and_leaves_destination_null() {
    let mut vm = BoltVM::new();
    let program = vec![
        Instruction::LoadInt(Register(0), 10),
        Instruction::LoadInt(Register(1), 0),
        Instruction::DivInt(Register(2), Register(0), Register(1)),
    ];
    assert_eq!(vm.execute(program), Err(Error::DivisionByZero));
    assert_eq!(vm.read(Register(2)), Value::Null);
}

#[test]
fn div_int_truncates_toward_zero() {
    let mut vm = BoltVM::new();
    let program = vec![
        Instruction::LoadInt(Register(0), -7),
        Instruction::LoadInt(Register(1), 2),
        Instruction::DivInt(Register(2), Register(0), Register(1)),
    ];
    assert!(vm.execute(program).is_ok());
    assert_eq!(vm.read(Register(2)), Value::Int(-3));
}

#[test]
fn array_listing_scenario_yields_length_two() {
    let mut vm = BoltVM::new();
    let program = vec![
        Instruction::CreateArray(Register(0)),
        Instruction::ArrayAdd(Register(0), Value::Int(1)),
        Instruction::ArrayAdd(Register(0), Value::Int(2)),
        Instruction::GetArrayLength(Register(0), Register(1)),
    ];
    assert!(vm.execute(program).is_ok());
    assert_eq!(vm.read(Register(1)), Value::Int(2));
    assert_eq!(
        vm.read(Register(0)),
        Value::Array(vec![Value::Int(1), Value::Int(2)])
    );
}

#[test]
fn array_ops_on_non_array_register_fail() {
    let expected = Err(Error::ExpectedType(String::from("array"), Register(0)));

    let mut vm = BoltVM::new();
    let program = vec![
        Instruction::LoadInt(Register(0), 1),
        Instruction::ArrayAdd(Register(0), Value::Int(2)),
    ];
    assert_eq!(vm.execute(program), expected);

    let mut vm = BoltVM::new();
    let program = vec![
        Instruction::LoadInt(Register(0), 1),
        Instruction::GetArrayElemPtr(Register(1), Register(0), 0),
    ];
    assert_eq!(vm.execute(program), expected);

    let mut vm = BoltVM::new();
    let program = vec![
        Instruction::LoadInt(Register(0), 1),
        Instruction::GetArrayLength(Register(0), Register(1)),
    ];
    assert_eq!(vm.execute(program), expected);
}

#[test]
fn array_index_out_of_bounds_carries_the_index() {
    let mut vm = BoltVM::new();
    let program = vec![
        Instruction::CreateArray(Register(0)),
        Instruction::ArrayAdd(Register(0), Value::Int(7)),
        Instruction::GetArrayElemPtr(Register(1), Register(0), 5),
    ];
    assert_eq!(vm.execute(program), Err(Error::ArrayIndexOutOfBounds(5)));
    assert_eq!(vm.read(Register(1)), Value::Null);
}

#[test]
fn array_element_fetch_copies_the_element() {
    let mut vm = BoltVM::new();
    let program = vec![
        Instruction::CreateArray(Register(0)),
        Instruction::ArrayAdd(Register(0), Value::Int(7)),
        Instruction::GetArrayElemPtr(Register(1), Register(0), 0),
        // Overwriting the copy must not affect the array.
        Instruction::LoadInt(Register(1), 99),
        Instruction::GetArrayElemPtr(Register(2), Register(0), 0),
    ];
    assert!(vm.execute(program).is_ok());
    assert_eq!(vm.read(Register(2)), Value::Int(7));
}

#[test]
fn array_element_copy_is_independent_even_for_arrays() {
    let mut vm = BoltVM::new();
    let program = vec![
        Instruction::CreateArray(Register(0)),
        Instruction::ArrayAdd(Register(0), Value::Array(vec![Value::Int(1)])),
        // Copy the inner array out and grow the copy.
        Instruction::GetArrayElemPtr(Register(1), Register(0), 0),
        Instruction::ArrayAdd(Register(1), Value::Int(2)),
        // The element inside the outer array still has one entry.
        Instruction::GetArrayElemPtr(Register(2), Register(0), 0),
        Instruction::GetArrayLength(Register(2), Register(3)),
        Instruction::GetArrayLength(Register(1), Register(4)),
    ];
    assert!(vm.execute(program).is_ok());
    assert_eq!(vm.read(Register(3)), Value::Int(1));
    assert_eq!(vm.read(Register(4)), Value::Int(2));
}

#[test]
fn pop_on_empty_stack_underflows() {
    let mut vm = BoltVM::new();
    let program = vec![Instruction::Pop(Register(0))];
    assert_eq!(vm.execute(program), Err(Error::StackUnderflow));
    assert!(vm.stack.is_empty());
}

#[test]
fn push_then_pop_returns_the_value() {
    let mut vm = BoltVM::new();
    let program = vec![
        Instruction::Push(Value::String(String::from("kept"))),
        Instruction::Pop(Register(9)),
    ];
    assert!(vm.execute(program).is_ok());
    assert_eq!(vm.read(Register(9)), Value::String(String::from("kept")));
    assert!(vm.stack.is_empty());
}

#[test]
fn halt_stops_before_later_instructions() {
    let mut vm = BoltVM::new();
    let program = vec![
        Instruction::LoadInt(Register(0), 1),
        Instruction::Halt,
        Instruction::LoadInt(Register(1), 2),
        Instruction::Print(ValueOrRegister::Value(String::from("never"))),
    ];
    assert!(vm.execute(program).is_ok());
    assert_eq!(vm.read(Register(0)), Value::Int(1));
    assert_eq!(vm.read(Register(1)), Value::Null);
    assert_eq!(vm.output, "");
    // Only the one completed instruction counts; Halt itself does not.
    assert_eq!(vm.instruction_pointer, 1);
}

#[test]
fn failure_stops_before_later_instructions() {
    let mut vm = BoltVM::new();
    let program = vec![
        Instruction::LoadInt(Register(0), 3),
        Instruction::Pop(Register(1)),
        Instruction::LoadInt(Register(2), 4),
    ];
    assert_eq!(vm.execute(program), Err(Error::StackUnderflow));
    // Effects committed before the failure stay; later ones never happen.
    assert_eq!(vm.read(Register(0)), Value::Int(3));
    assert_eq!(vm.read(Register(2)), Value::Null);
    assert_eq!(vm.instruction_pointer, 1);
}

#[test]
fn int_arithmetic_and_comparisons() {
    let mut vm = BoltVM::new();
    let program = vec![
        Instruction::LoadInt(Register(0), 20),
        Instruction::LoadInt(Register(1), 6),
        Instruction::AddInt(Register(2), Register(0), Register(1)),
        Instruction::SubInt(Register(3), Register(0), Register(1)),
        Instruction::MulInt(Register(4), Register(0), Register(1)),
        Instruction::DivInt(Register(5), Register(0), Register(1)),
        Instruction::LtInt(Register(6), Register(0), Register(1)),
        Instruction::GtInt(Register(7), Register(0), Register(1)),
    ];
    assert!(vm.execute(program).is_ok());
    assert_eq!(vm.read(Register(2)), Value::Int(26));
    assert_eq!(vm.read(Register(3)), Value::Int(14));
    assert_eq!(vm.read(Register(4)), Value::Int(120));
    assert_eq!(vm.read(Register(5)), Value::Int(3));
    assert_eq!(vm.read(Register(6)), Value::Bool(false));
    assert_eq!(vm.read(Register(7)), Value::Bool(true));
}

#[test]
fn add_int_wraps_on_overflow() {
    let mut vm = BoltVM::new();
    let program = vec![
        Instruction::LoadInt(Register(0), i32::MAX),
        Instruction::LoadInt(Register(1), 1),
        Instruction::AddInt(Register(2), Register(0), Register(1)),
    ];
    assert!(vm.execute(program).is_ok());
    assert_eq!(vm.read(Register(2)), Value::Int(i32::MIN));
}

#[test]
fn div_int_min_by_minus_one_wraps_to_min() {
    let mut vm = BoltVM::new();
    let program = vec![
        Instruction::LoadInt(Register(0), i32::MIN),
        Instruction::LoadInt(Register(1), -1),
        Instruction::DivInt(Register(2), Register(0), Register(1)),
    ];
    assert!(vm.execute(program).is_ok());
    assert_eq!(vm.read(Register(2)), Value::Int(i32::MIN));
}

#[test]
fn float_arithmetic_matches_ieee() {
    let mut vm = BoltVM::new();
    let program = vec![
        Instruction::LoadFlt(Register(0), (1.5f32).to_bits()),
        Instruction::LoadFlt(Register(1), (2.25f32).to_bits()),
        Instruction::AddFlt(Register(2), Register(0), Register(1)),
        Instruction::SubFlt(Register(3), Register(1), Register(0)),
        Instruction::MulFlt(Register(4), Register(0), Register(1)),
        Instruction::DivFlt(Register(5), Register(1), Register(0)),
    ];
    assert!(vm.execute(program).is_ok());
    assert_eq!(vm.read(Register(2)), Value::Float((1.5f32 + 2.25f32).to_bits()));
    assert_eq!(vm.read(Register(3)), Value::Float((2.25f32 - 1.5f32).to_bits()));
    assert_eq!(vm.read(Register(4)), Value::Float((1.5f32 * 2.25f32).to_bits()));
    assert_eq!(vm.read(Register(5)), Value::Float((2.25f32 / 1.5f32).to_bits()));
}

#[test]
fn float_comparisons_match_ieee() {
    let mut vm = BoltVM::new();
    let program = vec![
        Instruction::LoadFlt(Register(0), (1.0f32).to_bits()),
        Instruction::LoadFlt(Register(1), (2.0f32).to_bits()),
        Instruction::LtFlt(Register(2), Register(0), Register(1)),
        Instruction::LtFlt(Register(3), Register(1), Register(0)),
        Instruction::GtFlt(Register(4), Register(1), Register(0)),
        Instruction::GtFlt(Register(5), Register(0), Register(1)),
    ];
    assert!(vm.execute(program).is_ok());
    assert_eq!(vm.read(Register(2)), Value::Bool(true));
    assert_eq!(vm.read(Register(3)), Value::Bool(false));
    assert_eq!(vm.read(Register(4)), Value::Bool(true));
    assert_eq!(vm.read(Register(5)), Value::Bool(false));
}

#[test]
fn string_concatenation() {
    let mut vm = BoltVM::new();
    let program = vec![
        Instruction::LoadStr(Register(0), String::from("foo")),
        Instruction::LoadStr(Register(1), String::from("bar")),
        Instruction::ConcatStrings(Register(2), Register(0), Register(1)),
    ];
    assert!(vm.execute(program).is_ok());
    assert_eq!(vm.read(Register(2)), Value::String(String::from("foobar")));
}

#[test]
fn boolean_operations() {
    let mut vm = BoltVM::new();
    let program = vec![
        Instruction::LoadBool(Register(0), true),
        Instruction::LoadBool(Register(1), false),
        Instruction::AndBool(Register(2), Register(0), Register(1)),
        Instruction::OrBool(Register(3), Register(0), Register(1)),
        Instruction::EqBool(Register(4), Register(0), Register(1)),
        Instruction::EqBool(Register(5), Register(1), Register(1)),
    ];
    assert!(vm.execute(program).is_ok());
    assert_eq!(vm.read(Register(2)), Value::Bool(false));
    assert_eq!(vm.read(Register(3)), Value::Bool(true));
    assert_eq!(vm.read(Register(4)), Value::Bool(false));
    assert_eq!(vm.read(Register(5)), Value::Bool(true));
}

#[test]
fn typed_fetch_mismatch_names_type_and_register() {
    let mut vm = BoltVM::new();
    let program = vec![
        Instruction::LoadBool(Register(3), true),
        Instruction::AddInt(Register(0), Register(3), Register(3)),
    ];
    assert_eq!(
        vm.execute(program),
        Err(Error::ExpectedType(String::from("int"), Register(3)))
    );

    let mut vm = BoltVM::new();
    let program = vec![Instruction::AddFlt(Register(0), Register(1), Register(2))];
    assert_eq!(
        vm.execute(program),
        Err(Error::ExpectedType(String::from("float"), Register(1)))
    );

    let mut vm = BoltVM::new();
    let program = vec![Instruction::ConcatStrings(Register(0), Register(1), Register(2))];
    assert_eq!(
        vm.execute(program),
        Err(Error::ExpectedType(String::from("string"), Register(1)))
    );

    let mut vm = BoltVM::new();
    let program = vec![Instruction::AndBool(Register(0), Register(1), Register(2))];
    assert_eq!(
        vm.execute(program),
        Err(Error::ExpectedType(String::from("bool"), Register(1)))
    );
}

#[test]
fn print_emits_literal_and_rendered_register() {
    let mut vm = BoltVM::new();
    let program = vec![
        Instruction::LoadInt(Register(0), 1000000000),
        Instruction::Print(ValueOrRegister::Value(String::from("value: "))),
        Instruction::Print(ValueOrRegister::Register(Register(0))),
    ];
    assert!(vm.execute(program).is_ok());
    assert_eq!(vm.output, "value: 1000000000");
}

#[test]
fn execute_counts_instructions() {
    let mut vm = BoltVM::new();
    let program = vec![
        Instruction::LoadInt(Register(0), 1),
        Instruction::LoadInt(Register(1), 2),
        Instruction::LoadInt(Register(2), 3),
    ];
    assert!(vm.execute(program).is_ok());
    assert_eq!(vm.instruction_pointer, 3);
}

#[test]
fn write_and_read_round_trip() {
    let mut vm = BoltVM::new();
    vm.write(Register(17), Value::String(String::from("direct")));
    assert_eq!(vm.read(Register(17)), Value::String(String::from("direct")));
}

#[test]
fn handle_error_reports_trail_and_clears_it() {
    let mut vm = BoltVM::new();
    let program = vec![
        Instruction::LoadInt(Register(0), 1),
        Instruction::LoadInt(Register(1), 0),
        Instruction::DivInt(Register(2), Register(0), Register(1)),
    ];
    assert_eq!(vm.execute(program), Err(Error::DivisionByZero));
    let report = vm.handle_error();
    assert!(report.contains("in 'boltvm' at 'Instruction::DivInt', line 201"));
    assert!(report.contains("in 'boltvm' at 'execute()', line 80"));
    assert!(vm.frames.is_empty());
    // The rest of the machine is untouched.
    assert_eq!(vm.read(Register(0)), Value::Int(1));
    assert_eq!(vm.instruction_pointer, 2);
}

#[test]
fn handle_error_without_trail_says_so() {
    let mut vm = BoltVM::new();
    let report = vm.handle_error();
    assert_eq!(report, "\tno stacktrace");
    assert!(vm.frames.is_empty());
}
