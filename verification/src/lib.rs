//! Exact area evaluation for a closed family of plane shapes, with a generic
//! counterpart over any self-multiplying number type, checked division and a
//! bounded Fibonacci sequence.

pub mod division;
pub mod fibonacci;
pub mod generic;
pub mod shape;
