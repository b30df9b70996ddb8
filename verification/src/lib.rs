//! A small register-and-stack bytecode execution engine: a fixed
//! instruction set over a 65536-slot register file and a LIFO value
//! stack, with a typed runtime value model and a structured
//! error/diagnostic-trace mechanism.

pub mod register;
pub mod types;
pub mod frame;
pub mod float_ops;
pub mod text;
pub mod value;
pub mod error;
pub mod instruction;
pub mod semantics;
pub mod vm;
pub mod laws;
