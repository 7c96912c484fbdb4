//! Generates the C++ side of a bridge between Rust and C++.

pub mod brackets;
pub mod calls;
pub mod cxx_header;
pub mod includes;
pub mod instances;
pub mod laws;
pub mod layout;
pub mod lines;
pub mod name;
pub mod nesting;
pub mod out;
pub mod runtime;
pub mod spelling;
pub mod syntax;
pub mod text;
pub mod words;
pub mod write;
