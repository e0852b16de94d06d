use vstd::prelude::*;

verus! {

/// The kinds of value that a parameter, a property or a return value can be declared with.
#[derive(Clone, Copy, Debug, PartialEq, Eq, Structural)]
pub enum ParamType {
    Bool,
    I32,
    F64,
    String,
    Date,
    Blob,
}

} // verus!
