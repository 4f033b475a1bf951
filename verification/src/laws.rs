//! What the library promises of its operations as a whole, each as a statement that Verus proves.
//!
//! A law here speaks of inputs and results: what a result has to satisfy, what undoes an operation,
//! or how two uses of it relate.

pub mod chain;
pub mod collection;
pub mod markup;
pub mod pages;
pub mod portal;
pub mod table;
pub mod text;
pub mod verdict;
pub mod views;
