//! Companion-type generation for tuple type aliases.
//!
//! Given a type alias of a tuple together with a list of column data type
//! names, this library builds the source text of a companion record struct,
//! conversions between the struct and the tuple, and row accessors for an
//! embedded SQL database, in the vocabulary of a columnar dataframe library.
//! The host compiler's token streams are converted to and from the plain
//! token model of [`attr`] outside this crate; everything here works on
//! plain values and is verified.

pub mod attr;
pub mod dtype;
pub mod expand;
pub mod members;
pub mod text;
