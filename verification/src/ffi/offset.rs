//! The place of each interface sub-object inside the composite object, in pointer
//! words from its start. The order of the constants is the order in which the
//! composite object declares its sub-objects.

use vstd::prelude::*;

verus! {

/// The offset of the interface of the life of the object.
pub const INIT_DONE: usize = 0;

/// The offset of the primary extension interface.
pub const LANG_EXTENDER: usize = 1;

/// The offset of the locale interface.
pub const LOCALE: usize = 2;

/// The offset of the user-language interface.
pub const USER_LANG: usize = 3;

} // verus!
