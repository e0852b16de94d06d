//! What the declaration of a plugin says in words, and the words of the code that is
//! written from it: the names of the kinds of value, and the names of constants and
//! variables.

pub mod constants;
pub mod names;
pub mod parsers;
