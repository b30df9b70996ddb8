//! The tagged runtime value, its type predicates and accessors, and
//! its textual rendering.

use vstd::prelude::*;
use crate::register::Register;
use crate::float_ops::{flt_text, flt_to_string};
use crate::text::{int_text, bool_text, i32_to_string, bool_to_string};

verus! {

/// Mathematical model of a runtime value: text as a character
/// sequence, an array as a sequence of element models. A float is
/// carried as its IEEE 754 single-precision bit pattern.
#[verifier::ext_equal]
pub enum ValueModel {
    Int(i32),
    Float(u32),
    Str(Seq<char>),
    Bool(bool),
    Array(Seq<ValueModel>),
    Null,
}

/// All the possible value types. A float is carried as its IEEE 754
/// single-precision bit pattern; see `float_ops` for the arithmetic
/// on such patterns.
#[derive(Debug, PartialEq)]
pub enum Value {
    Int(i32),
    Float(u32),
    String(String),
    Bool(bool),
    Array(Vec<Value>),
    Null,
}

/// The models of a sequence of values, in order.
pub open spec fn array_model(vs: Seq<Value>) -> Seq<ValueModel>
    decreases vs,
{
    Seq::new(
        vs.len(),
        |i: int|
            if 0 <= i < vs.len() {
                vs[i]@
            } else {
                ValueModel::Null
            },
    )
}

impl View for Value {
    type V = ValueModel;

    open spec fn view(&self) -> ValueModel
        decreases self,
    {
        match self {
            Value::Int(i) => ValueModel::Int(*i),
            Value::Float(b) => ValueModel::Float(*b),
            Value::String(s) => ValueModel::Str(s@),
            Value::Bool(b) => ValueModel::Bool(*b),
            Value::Array(vs) => ValueModel::Array(array_model(vs@)),
            Value::Null => ValueModel::Null,
        }
    }
}

/// What `array_model` holds: one model per element, in order.
pub broadcast proof fn lemma_array_model(vs: Seq<Value>)
    ensures
        (#[trigger] array_model(vs)).len() == vs.len(),
        forall|i: int| 0 <= i < vs.len() ==> array_model(vs)[i] == vs[i]@,
{
}

impl Value {
    pub fn is_int(&self) -> (r: bool)
        ensures
            r == (self@ is Int),
    {
        match *self {
            Value::Int(_) => true,
            _ => false,
        }
    }

    pub fn is_float(&self) -> (r: bool)
        ensures
            r == (self@ is Float),
    {
        match *self {
            Value::Float(_) => true,
            _ => false,
        }
    }

    pub fn is_string(&self) -> (r: bool)
        ensures
            r == (self@ is Str),
    {
        match *self {
            Value::String(_) => true,
            _ => false,
        }
    }

    pub fn is_bool(&self) -> (r: bool)
        ensures
            r == (self@ is Bool),
    {
        match *self {
            Value::Bool(_) => true,
            _ => false,
        }
    }

    pub fn is_list(&self) -> (r: bool)
        ensures
            r == (self@ is Array),
    {
        match *self {
            Value::Array(_) => true,
            _ => false,
        }
    }

    pub fn is_null(&self) -> (r: bool)
        ensures
            r == (self@ is Null),
    {
        match *self {
            Value::Null => true,
            _ => false,
        }
    }

    /// The boolean payload. A value of another type is a programmer
    /// error here, so the tag is required rather than checked.
    pub fn as_bool(&self) -> (r: bool)
        requires
            self@ is Bool,
        ensures
            r == self@->Bool_0,
    {
        match *self {
            Value::Bool(value) => value,
            _ => false,
        }
    }

    /// The integer payload read as an instruction address. A value of
    /// another type is a programmer error here, so the tag is
    /// required rather than checked.
    pub fn as_jump_target(&self) -> (r: usize)
        requires
            self@ is Int,
        ensures
            r == self@->Int_0 as usize,
    {
        match *self {
            Value::Int(value) => value as usize,
            _ => 0,
        }
    }

    /// An independent copy carrying the same model. Slots never
    /// alias: every register-to-register, register-to-stack and
    /// array-element move copies through this.
    #[verifier::loop_isolation(false)]
    pub fn duplicate(&self) -> (r: Value)
        ensures
            r@ == self@,
        decreases self,
    {
        match self {
            Value::Int(i) => Value::Int(*i),
            Value::Float(b) => Value::Float(*b),
            Value::String(s) => Value::String(s.clone()),
            Value::Bool(b) => Value::Bool(*b),
            Value::Array(vs) => {
                let mut copies: Vec<Value> = Vec::new();
                let mut j: usize = 0;
                while j < vs.len()
                    invariant
                        j <= vs.len(),
                        copies@.len() == j,
                        forall|k: int| 0 <= k < j ==> copies@[k]@ == vs@[k]@,
                    decreases vs.len() - j,
                {
                    copies.push(vs[j].duplicate());
                    j = j + 1;
                }
                let r = Value::Array(copies);
                proof {
                    broadcast use lemma_array_model;

                    assert(array_model(copies@) =~= array_model(vs@));
                }
                r
            },
            Value::Null => Value::Null,
        }
    }
}

impl Clone for Value {
    /// An independent copy carrying the same model.
    fn clone(&self) -> (r: Value)
        ensures
            r@ == self@,
    {
        self.duplicate()
    }
}

/// The comma-separated join of a list of already-rendered pieces.
pub open spec fn comma_join(ts: Seq<Seq<char>>) -> Seq<char>
    decreases ts.len(),
{
    if ts.len() == 0 {
        Seq::empty()
    } else if ts.len() == 1 {
        ts[0]
    } else {
        comma_join(ts.drop_last()) + ", "@ + ts.last()
    }
}

/// The debug renderings of a sequence of values, in order.
pub open spec fn debug_texts(es: Seq<ValueModel>) -> Seq<Seq<char>>
    decreases es,
{
    Seq::new(
        es.len(),
        |i: int|
            if 0 <= i < es.len() {
                debug_text(es[i])
            } else {
                Seq::empty()
            },
    )
}

/// What `debug_texts` holds: one rendering per element, in order.
pub broadcast proof fn lemma_debug_texts(es: Seq<ValueModel>)
    ensures
        (#[trigger] debug_texts(es)).len() == es.len(),
        forall|i: int| 0 <= i < es.len() ==> debug_texts(es)[i] == debug_text(es[i]),
{
}

/// The natural rendering of a value: numbers and booleans in their
/// textual form, a string verbatim, an array as a debug listing of
/// its elements, null as the literal text `null`.
pub open spec fn value_text(v: ValueModel) -> Seq<char>
    decreases v,
{
    match v {
        ValueModel::Int(i) => int_text(i as int),
        ValueModel::Float(b) => flt_text(b),
        ValueModel::Str(s) => s,
        ValueModel::Bool(b) => bool_text(b),
        ValueModel::Array(es) => "["@ + comma_join(debug_texts(es)) + "]"@,
        ValueModel::Null => "null"@,
    }
}

/// The debug rendering of a value, tag included, as array elements
/// are listed.
pub open spec fn debug_text(v: ValueModel) -> Seq<char>
    decreases v,
{
    match v {
        ValueModel::Int(i) => "Int("@ + int_text(i as int) + ")"@,
        ValueModel::Float(b) => "Float("@ + flt_text(b) + ")"@,
        ValueModel::Str(s) => "String(\""@ + s + "\")"@,
        ValueModel::Bool(b) => "Bool("@ + bool_text(b) + ")"@,
        ValueModel::Array(es) => "Array(["@ + comma_join(debug_texts(es)) + "])"@,
        ValueModel::Null => "Null"@,
    }
}

impl Value {
    /// The natural textual form of the value, as `Print` emits it.
    pub fn render(&self) -> (r: String)
        ensures
            r@ == value_text(self@),
        decreases self,
    {
        match self {
            Value::Int(i) => i32_to_string(*i),
            Value::Float(b) => flt_to_string(*b),
            Value::String(s) => s.clone(),
            Value::Bool(b) => bool_to_string(*b),
            Value::Array(vs) => {
                let mut s = String::from_str("[");
                let inner = render_list(vs);
                s.append(inner.as_str());
                s.append("]");
                s
            },
            Value::Null => String::from_str("null"),
        }
    }

    /// The debug form of the value, as one element of an array
    /// listing.
    pub fn render_debug(&self) -> (r: String)
        ensures
            r@ == debug_text(self@),
        decreases self,
    {
        match self {
            Value::Int(i) => {
                let mut s = String::from_str("Int(");
                let digits = i32_to_string(*i);
                s.append(digits.as_str());
                s.append(")");
                s
            },
            Value::Float(b) => {
                let mut s = String::from_str("Float(");
                let digits = flt_to_string(*b);
                s.append(digits.as_str());
                s.append(")");
                s
            },
            Value::String(text) => {
                let mut s = String::from_str("String(\"");
                s.append(text.as_str());
                s.append("\")");
                s
            },
            Value::Bool(b) => {
                let mut s = String::from_str("Bool(");
                let word = bool_to_string(*b);
                s.append(word.as_str());
                s.append(")");
                s
            },
            Value::Array(vs) => {
                let mut s = String::from_str("Array([");
                let inner = render_list(vs);
                s.append(inner.as_str());
                s.append("])");
                s
            },
            Value::Null => String::from_str("Null"),
        }
    }
}

/// The comma-separated debug listing of an array's elements, without
/// the surrounding brackets.
#[verifier::loop_isolation(false)]
fn render_list(vs: &Vec<Value>) -> (r: String)
    ensures
        r@ == comma_join(debug_texts(array_model(vs@))),
    decreases vs,
{
    proof {
        broadcast use lemma_array_model, lemma_debug_texts;
    }
    let ghost texts = debug_texts(array_model(vs@));
    let mut s = String::new();
    let mut j: usize = 0;
    while j < vs.len()
        invariant
            j <= vs.len(),
            s@ == comma_join(texts.take(j as int)),
        decreases vs.len() - j,
    {
        if j > 0 {
            s.append(", ");
        }
        let piece = vs[j].render_debug();
        s.append(piece.as_str());
        proof {
            if j == 0 {
                assert(texts.take(1) =~= seq![texts[0]]);
            } else {
                assert(texts.take(j + 1).drop_last() =~= texts.take(j as int));
            }
        }
        j = j + 1;
    }
    proof {
        assert(texts.take(vs@.len() as int) =~= texts);
    }
    s
}

/// Either a literal string to emit verbatim, or a register whose
/// current value is rendered.
#[derive(Debug)]
pub enum ValueOrRegister {
    Value(String),
    Register(Register),
}

impl Clone for ValueOrRegister {
    /// An independent copy carrying the same model.
    fn clone(&self) -> (r: ValueOrRegister)
        ensures
            r@ == self@,
    {
        match self {
            ValueOrRegister::Value(s) => ValueOrRegister::Value(s.clone()),
            ValueOrRegister::Register(r) => ValueOrRegister::Register(*r),
        }
    }
}

/// Mathematical model of a `ValueOrRegister`.
pub enum ValueOrRegisterModel {
    Text(Seq<char>),
    Reg(Register),
}

impl View for ValueOrRegister {
    type V = ValueOrRegisterModel;

    open spec fn view(&self) -> ValueOrRegisterModel {
        match self {
            ValueOrRegister::Value(s) => ValueOrRegisterModel::Text(s@),
            ValueOrRegister::Register(r) => ValueOrRegisterModel::Reg(*r),
        }
    }
}

} // verus!
