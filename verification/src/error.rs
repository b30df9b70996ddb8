//! The error taxonomy of the virtual machine, and its rendering.

use vstd::prelude::*;
use crate::register::{Register, register_text};
use crate::types::Label;
use crate::text::{nat_text, usize_to_string};

verus! {

/// Console colors for the rendered output.
#[derive(Debug, Clone)]
pub enum Color {
    Red,
    Green,
    Yellow,
    Blue,
    Reset,
}

/// The ANSI escape sequence a color renders to.
pub open spec fn color_code(c: Color) -> Seq<char> {
    match c {
        Color::Red => "\x1b[31m"@,
        Color::Green => "\x1b[32m"@,
        Color::Yellow => "\x1b[33m"@,
        Color::Blue => "\x1b[34m"@,
        Color::Reset => "\x1b[0m"@,
    }
}

impl Color {
    /// The ANSI escape sequence this color renders to.
    pub fn code(&self) -> (r: &'static str)
        ensures
            r@ == color_code(*self),
    {
        match self {
            Color::Red => "\x1b[31m",
            Color::Green => "\x1b[32m",
            Color::Yellow => "\x1b[33m",
            Color::Blue => "\x1b[34m",
            Color::Reset => "\x1b[0m",
        }
    }
}

/// The kind of failure an instruction can produce. Every error aborts
/// the remaining instruction sequence immediately.
#[derive(Debug, Clone, PartialEq)]
pub enum Error {
    /// A typed register fetch found a mismatched tag: the expected
    /// type's name and the offending register.
    ExpectedType(String, Register),
    /// An array element fetch beyond the element count: the index.
    ArrayIndexOutOfBounds(usize),
    /// Integer or float division with a zero divisor.
    DivisionByZero,
    /// Reserved for a control-flow extension; no current instruction
    /// produces it.
    LabelNotDefined(Label),
    /// `Pop` on an empty stack.
    StackUnderflow,
}

/// Mathematical model of an error.
pub enum ErrorModel {
    ExpectedType(Seq<char>, Register),
    ArrayIndexOutOfBounds(usize),
    DivisionByZero,
    LabelNotDefined(Seq<char>),
    StackUnderflow,
}

impl View for Error {
    type V = ErrorModel;

    open spec fn view(&self) -> ErrorModel {
        match self {
            Error::ExpectedType(t, r) => ErrorModel::ExpectedType(t@, *r),
            Error::ArrayIndexOutOfBounds(i) => ErrorModel::ArrayIndexOutOfBounds(*i),
            Error::DivisionByZero => ErrorModel::DivisionByZero,
            Error::LabelNotDefined(l) => ErrorModel::LabelNotDefined(l.0@),
            Error::StackUnderflow => ErrorModel::StackUnderflow,
        }
    }
}

/// The colorized `[ error ]` tag every rendered error starts with.
pub open spec fn error_tag() -> Seq<char> {
    "["@ + color_code(Color::Red) + " error "@ + color_code(Color::Reset) + "]"@
}

/// The rendered text of an error: the tag, then a human-readable
/// message carrying the error's payload.
pub open spec fn error_text(e: ErrorModel) -> Seq<char> {
    match e {
        ErrorModel::ExpectedType(t, r) => error_tag() + " expected type '"@ + t
            + "' in register '"@ + register_text(r) + "'"@,
        ErrorModel::ArrayIndexOutOfBounds(i) => error_tag() + " index '"@ + nat_text(i as nat)
            + "' is out of bounds for array"@,
        ErrorModel::DivisionByZero => error_tag() + " division by zero"@,
        ErrorModel::LabelNotDefined(l) => error_tag() + " label '"@ + l + "' is not defined"@,
        ErrorModel::StackUnderflow => error_tag() + " stack underflow"@,
    }
}

/// The colorized `[ error ]` tag.
fn render_tag() -> (r: String)
    ensures
        r@ == error_tag(),
{
    let mut s = String::from_str("[");
    s.append(Color::Red.code());
    s.append(" error ");
    s.append(Color::Reset.code());
    s.append("]");
    s
}

impl Error {
    /// The rendered form of the error, tag and message.
    pub fn render(&self) -> (r: String)
        ensures
            r@ == error_text(self@),
    {
        let mut s = render_tag();
        match self {
            Error::ExpectedType(t, register) => {
                s.append(" expected type '");
                s.append(t.as_str());
                s.append("' in register '");
                let reg = register.render();
                s.append(reg.as_str());
                s.append("'");
            },
            Error::ArrayIndexOutOfBounds(i) => {
                s.append(" index '");
                let digits = usize_to_string(*i);
                s.append(digits.as_str());
                s.append("' is out of bounds for array");
            },
            Error::DivisionByZero => {
                s.append(" division by zero");
            },
            Error::LabelNotDefined(label) => {
                s.append(" label '");
                s.append(label.0.as_str());
                s.append("' is not defined");
            },
            Error::StackUnderflow => {
                s.append(" stack underflow");
            },
        }
        s
    }
}

} // verus!
