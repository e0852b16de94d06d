//! Reading the kind of a value from the name that a declaration gives it.

use vstd::prelude::*;
use crate::derive_addin::constants::all_arg_types;
use crate::derive_addin::constants::BLOB_TYPE;
use crate::derive_addin::constants::BOOL_TYPE;
use crate::derive_addin::constants::DATE_TYPE;
use crate::derive_addin::constants::F64_TYPE;
use crate::derive_addin::constants::I32_TYPE;
use crate::derive_addin::constants::spec_all_arg_types;
use crate::derive_addin::constants::STRING_TYPE;
use crate::interface::param_type::ParamType;

verus! {

/// The kind of a value as a declaration names it.
#[derive(Clone, Copy, Debug, PartialEq, Eq)]
pub struct ParamTypeWrapper(pub ParamType);

/// The kind that a name stands for, if it is the name of a kind.
pub open spec fn spec_param_type(name: Seq<char>) -> Option<ParamType> {
    if name == BOOL_TYPE@ {
        Some(ParamType::Bool)
    } else if name == I32_TYPE@ {
        Some(ParamType::I32)
    } else if name == F64_TYPE@ {
        Some(ParamType::F64)
    } else if name == STRING_TYPE@ {
        Some(ParamType::String)
    } else if name == DATE_TYPE@ {
        Some(ParamType::Date)
    } else if name == BLOB_TYPE@ {
        Some(ParamType::Blob)
    } else {
        None
    }
}

/// The message for a name that is the name of no kind.
pub open spec fn spec_unknown_type_message(name: Seq<char>) -> Seq<char> {
    "unknown type `"@ + name + "`. Must be one of: "@ + spec_all_arg_types()
}

/// Whether two texts are the same.
pub fn same_text(a: &str, b: &str) -> (r: bool)
    ensures
        r == (a@ == b@),
{
    let x = String::from_str(a);
    let y = String::from_str(b);
    x == y
}

impl ParamTypeWrapper {
    /// The kind that `value` names, or the message that says which names there are.
    pub fn from_string(value: &str) -> (r: Result<ParamTypeWrapper, String>)
        ensures
            match spec_param_type(value@) {
                Some(ty) => r matches Ok(w) && w.0 == ty,
                None => r matches Err(message) && message@ == spec_unknown_type_message(value@),
            },
    {
        match ParamTypeWrapper::try_from(value) {
            Ok(w) => Ok(w),
            Err(_) => {
                let mut message = String::from_str("unknown type `");
                message.append(value);
                message.append("`. Must be one of: ");
                let allowed = all_arg_types();
                message.append(allowed.as_str());
                Err(message)
            },
        }
    }
}

impl TryFrom<&str> for ParamTypeWrapper {
    type Error = ();

    fn try_from(value: &str) -> (r: Result<ParamTypeWrapper, ()>) {
        if same_text(value, BOOL_TYPE) {
            Ok(ParamTypeWrapper(ParamType::Bool))
        } else if same_text(value, I32_TYPE) {
            Ok(ParamTypeWrapper(ParamType::I32))
        } else if same_text(value, F64_TYPE) {
            Ok(ParamTypeWrapper(ParamType::F64))
        } else if same_text(value, STRING_TYPE) {
            Ok(ParamTypeWrapper(ParamType::String))
        } else if same_text(value, DATE_TYPE) {
            Ok(ParamTypeWrapper(ParamType::Date))
        } else if same_text(value, BLOB_TYPE) {
            Ok(ParamTypeWrapper(ParamType::Blob))
        } else {
            Err(())
        }
    }
}

impl vstd::std_specs::convert::TryFromSpecImpl<&str> for ParamTypeWrapper {
    open spec fn obeys_try_from_spec() -> bool {
        true
    }

    open spec fn try_from_spec(value: &str) -> Result<ParamTypeWrapper, ()> {
        match spec_param_type(value@) {
            Some(ty) => Ok(ParamTypeWrapper(ty)),
            None => Err(()),
        }
    }
}

} // verus!
