use boltvm::error::{Color, Error};
use boltvm::instruction::Instruction;
use boltvm::value::ValueOrRegister;
use boltvm::register::Register;
use boltvm::text::{bool_to_string, i32_to_string, u64_to_string, usize_to_string};
use boltvm::types::Label;
use boltvm::value::Value;
use boltvm::vm::BoltVM;

#[test]
fn decimal_rendering() {
    assert_eq!(u64_to_string(0), "0");
    assert_eq!(u64_to_string(9), "9");
    assert_eq!(u64_to_string(10), "10");
    assert_eq!(u64_to_string(65536), "65536");
    assert_eq!(i32_to_string(0), "0");
    assert_eq!(i32_to_string(-1), "-1");
    assert_eq!(i32_to_string(-123), "-123");
    assert_eq!(i32_to_string(1000000000), "1000000000");
    assert_eq!(i32_to_string(i32::MIN), "-2147483648");
    assert_eq!(i32_to_string(i32::MAX), "2147483647");
    assert_eq!(usize_to_string(42), "42");
    assert_eq!(bool_to_string(true), "true");
    assert_eq!(bool_to_string(false), "false");
}

#[test]
fn register_predicates_and_accessors() {
    assert_eq!(Register(5).as_index(), 5);
    assert_eq!(Register(65535).as_index(), 65535);
    assert_eq!(Register(10).render(), "r10");

    assert!(Value::Int(1).is_int());
    assert!(Value::Float(0).is_float());
    assert!(Value::String(String::new()).is_string());
    assert!(Value::Bool(true).is_bool());
    assert!(Value::Array(vec![]).is_list());
    assert!(Value::Null.is_null());
    assert!(!Value::Null.is_int());
    assert!(!Value::Int(1).is_list());

    assert!(Value::Bool(true).as_bool());
    assert!(!Value::Bool(false).as_bool());
    assert_eq!(Value::Int(5).as_jump_target(), 5);
}

#[test]
fn value_rendering() {
    assert_eq!(Value::Int(-42).render(), "-42");
    assert_eq!(Value::Bool(true).render(), "true");
    assert_eq!(Value::Bool(false).render(), "false");
    assert_eq!(Value::Null.render(), "null");
    assert_eq!(Value::String(String::from("verbatim text")).render(), "verbatim text");
    assert_eq!(Value::Array(vec![]).render(), "[]");
    assert_eq!(
        Value::Array(vec![Value::Int(1), Value::Int(2)]).render(),
        "[Int(1), Int(2)]"
    );
    assert_eq!(
        Value::Array(vec![
            Value::String(String::from("hi")),
            Value::Bool(true),
            Value::Null,
            Value::Array(vec![Value::Int(3)]),
        ])
        .render(),
        "[String(\"hi\"), Bool(true), Null, Array([Int(3)])]"
    );
}

#[test]
fn float_rendering_is_decimal() {
    assert_eq!(Value::Float((1.5f32).to_bits()).render(), "1.5");
    assert_eq!(Value::Float((0.0f32).to_bits()).render(), "0");
    assert_eq!(Value::Float((-2.25f32).to_bits()).render(), "-2.25");
}

#[test]
fn value_duplicate_is_equal_and_independent() {
    let original = Value::Array(vec![
        Value::Int(1),
        Value::String(String::from("s")),
        Value::Array(vec![Value::Bool(false)]),
    ]);
    let copy = original.duplicate();
    assert_eq!(copy, original);
    if let Value::Array(mut elems) = copy {
        elems.push(Value::Int(9));
        assert_eq!(
            original,
            Value::Array(vec![
                Value::Int(1),
                Value::String(String::from("s")),
                Value::Array(vec![Value::Bool(false)]),
            ])
        );
    } else {
        panic!("expected an array");
    }
}

#[test]
fn color_codes() {
    assert_eq!(Color::Red.code(), "\x1b[31m");
    assert_eq!(Color::Green.code(), "\x1b[32m");
    assert_eq!(Color::Yellow.code(), "\x1b[33m");
    assert_eq!(Color::Blue.code(), "\x1b[34m");
    assert_eq!(Color::Reset.code(), "\x1b[0m");
}

#[test]
fn error_rendering() {
    let tag = "[\x1b[31m error \x1b[0m]";
    assert_eq!(
        Error::ExpectedType(String::from("array"), Register(5)).render(),
        format!("{tag} expected type 'array' in register 'r5'")
    );
    assert_eq!(
        Error::ArrayIndexOutOfBounds(12).render(),
        format!("{tag} index '12' is out of bounds for array")
    );
    assert_eq!(
        Error::DivisionByZero.render(),
        format!("{tag} division by zero")
    );
    assert_eq!(
        Error::LabelNotDefined(Label(String::from("start"))).render(),
        format!("{tag} label 'start' is not defined")
    );
    assert_eq!(
        Error::StackUnderflow.render(),
        format!("{tag} stack underflow")
    );
}

#[test]
fn debug_dump_of_fresh_machine() {
    let vm = BoltVM::new();
    let expected = String::from("========== debug dump ==========\n")
        + "registers:\n"
        + "\n\tused registers: \x1b[32m0\x1b[0m\n"
        + "\tunused registers: \x1b[33m65536\x1b[0m\n\n"
        + "stack:\n"
        + "\t\x1b[31mstack is empty\x1b[0m\n\n"
        + "number of instructions executed: \x1b[34m0\x1b[0m\n"
        + "======= end of debug dump ======\n";
    assert_eq!(vm.debug_dump(), expected);
}

#[test]
fn debug_dump_lists_registers_and_stack() {
    let mut vm = BoltVM::new();
    let program = vec![
        Instruction::LoadInt(Register(3), 7),
        Instruction::Push(Value::Bool(true)),
        Instruction::Print(ValueOrRegister::Value(String::from(""))),
    ];
    assert!(vm.execute(program).is_ok());
    let dump = vm.debug_dump();
    assert!(dump.contains("\t\x1b[34mr3\x1b[0m: 7\n"));
    assert!(dump.contains("\tused registers: \x1b[32m1\x1b[0m\n"));
    assert!(dump.contains("\tunused registers: \x1b[33m65535\x1b[0m\n"));
    assert!(dump.contains("\t\x1b[34ms0\x1b[0m: true\n"));
    assert!(dump.contains("\tvalues still on stack: \x1b[33m1\x1b[0m\n"));
    assert!(dump.contains("number of instructions executed: \x1b[34m3\x1b[0m\n"));
}

#[test]
fn format_stack_frame_keeps_engine_records_only() {
    let mut vm = BoltVM::new();
    let program = vec![Instruction::Pop(Register(0))];
    assert!(vm.execute(program).is_err());
    let trace = vm.format_stack_frame();
    assert_eq!(
        trace,
        "\tin 'boltvm' at 'execute()', line 80\n\tin 'boltvm' at 'Instruction::Pop', line 421\n"
    );
}
