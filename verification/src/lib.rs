//! An interpreter for a two-dimensional, direction-based esoteric language.
//!
//! A program is a rectangular grid of codepoints. One instruction pointer
//! walks the grid in one of four headings; the cell under it is decoded as an
//! opcode that acts on an integer stack, on the grid itself, or on the heading.
//!
//! The library holds the whole machine and no input or output: a step that
//! wants to print or to read hands an [`interpreter::Event`] to its caller.

pub mod codebox;
pub mod interpreter;
pub mod laws;
pub mod position;
pub mod state;
pub mod text;
