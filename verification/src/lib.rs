//! The execution core of a small, statically typed, deterministic
//! scripting language: a polymorphic value model over owned and shared
//! cells, a stack-based virtual machine with gas metering, and a
//! bounded validator that vets a module before anything runs.

pub mod cells;
pub mod constructor;
pub mod environment;
pub mod errors;
pub mod iterator;
pub mod machine;
pub mod manager;
pub mod module;
pub mod natives;
pub mod path;
pub mod stack;
pub mod types;
pub mod u256;
pub mod validator;
pub mod value_type;
pub mod values;
