//! The names by which a declaration calls the kinds of value.

use vstd::prelude::*;

verus! {

/// The name of the kind of booleans.
pub const BOOL_TYPE: &'static str = "Bool";

/// The name of the kind of integers.
pub const I32_TYPE: &'static str = "Int";

/// The name of the kind of floats.
pub const F64_TYPE: &'static str = "Float";

/// The name of the kind of strings.
pub const STRING_TYPE: &'static str = "Str";

/// The name of the kind of date-times.
pub const DATE_TYPE: &'static str = "Date";

/// The name of the kind of blobs.
pub const BLOB_TYPE: &'static str = "Blob";

/// The names of the kinds that an argument can be declared with, joined by commas.
pub open spec fn spec_all_arg_types() -> Seq<char> {
    BOOL_TYPE@ + ", "@ + I32_TYPE@ + ", "@ + F64_TYPE@ + ", "@ + STRING_TYPE@ + ", "@ + DATE_TYPE@
        + ", "@ + BLOB_TYPE@
}

/// The names of the kinds that an argument can be declared with, joined by commas.
pub fn all_arg_types() -> (r: String)
    ensures
        r@ == spec_all_arg_types(),
{
    let mut r = String::from_str(BOOL_TYPE);
    r.append(", ");
    r.append(I32_TYPE);
    r.append(", ");
    r.append(F64_TYPE);
    r.append(", ");
    r.append(STRING_TYPE);
    r.append(", ");
    r.append(DATE_TYPE);
    r.append(", ");
    r.append(BLOB_TYPE);
    r
}

} // verus!
