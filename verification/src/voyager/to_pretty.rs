//! JSON pretty-printing for the toolkit.

pub use crate::pretty::to_string_pretty;
