//! Numeric operators for a dynamically typed scripting engine: checked and
//! unchecked arithmetic over the fixed-width integers, bitwise and sign
//! operators, and the table that binds each operator symbol to the
//! implementation chosen for a configuration.

pub mod arithmetic;
pub mod decimal;
pub mod error;
pub mod integer;
pub mod invoke;
pub mod laws;
pub mod outside;
pub mod signed;
pub mod table;
pub mod types;
pub mod unsigned;
pub mod value;
