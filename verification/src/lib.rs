//! Turns a typed command value into the ordered list of command-line tokens
//! that would invoke it again: `variant-name --flag-a value-a --flag-b value-b`.
//!
//! The encoding of single values lives in [`value`], the normalisation of
//! names in [`names`], and the assembly of whole records and variants in
//! [`flatten`]. [`traits`] offers the two traits by which a type of the
//! caller states how it is rendered, [`text`] the rendering of integers and
//! characters, and [`example`] a few types rendered through the traits.

pub mod text;
pub mod names;
pub mod value;
pub mod flatten;
pub mod traits;
pub mod example;

pub use crate::flatten::{flatten, to_flags, to_subcommand};
pub use crate::traits::{ToFlags, ToSubcommand, Variant};
pub use crate::value::{classify, encode, Capability, Field, Value};
