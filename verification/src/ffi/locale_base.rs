//! The locale protocol: the one entry through which the host tells the plugin its
//! locale.

use vstd::prelude::*;
use widestring::U16CStr;
use crate::ffi::Component;
use crate::ffi::memory_manager::MemoryManager;
use crate::ffi::offset::LOCALE;
use crate::ffi::reserved_slots;
use crate::ffi::spec_reserved_slots;
use crate::ffi::TargetFamily;
use crate::interface::AddInWrapper;
use crate::interface::wide::wide_str_units;

verus! {

/// The address that the host holds for the locale interface.
pub type This = crate::ffi::This<LOCALE>;

/// The entries of the locale protocol, in the order of their slots.
#[derive(Clone, Copy, Debug, PartialEq, Eq, Structural)]
pub enum LocaleEntry {
    SetLocale,
}

/// The function table of the locale protocol as the host reads it: the reserved
/// words, then one slot for each entry.
#[derive(Debug, PartialEq, Eq)]
pub struct LocaleBaseVTable {
    pub dtor: usize,
    /// The second reserved word, on the targets that have one.
    pub dtor2: Option<usize>,
    pub entries: Vec<LocaleEntry>,
}

/// The entries of the locale protocol in the order that the host fixes.
pub open spec fn locale_entries() -> Seq<LocaleEntry> {
    seq![LocaleEntry::SetLocale]
}

impl LocaleBaseVTable {
    /// The table for a target family: reserved words of zero, and the entries in the
    /// order that the host fixes.
    pub fn new(family: TargetFamily) -> (r: Self)
        ensures
            r.dtor == 0,
            r.dtor2 == (match family {
                TargetFamily::Unix => Some(0usize),
                TargetFamily::Windows => None,
            }),
            r.entries@ == locale_entries(),
            r.spec_slots() == spec_reserved_slots(family) + 1,
    {
        let mut entries: Vec<LocaleEntry> = Vec::new();
        entries.push(LocaleEntry::SetLocale);
        let dtor2: Option<usize> = match family {
            TargetFamily::Unix => Some(0),
            TargetFamily::Windows => None,
        };
        proof {
            assert(entries@ =~= locale_entries());
        }
        LocaleBaseVTable { dtor: 0, dtor2, entries }
    }

    /// The number of pointer words that the table takes.
    pub open spec fn spec_slots(&self) -> int {
        1 + (if self.dtor2 is Some {
            1int
        } else {
            0int
        }) + self.entries@.len()
    }

    /// The slot of the entry that sets the locale.
    pub fn set_locale_slot(family: TargetFamily) -> (r: usize)
        ensures
            r == spec_reserved_slots(family),
    {
        reserved_slots(family)
    }
}

/// Hands the host's locale on to the plugin, unchanged.
pub fn set_locale<T: AddInWrapper, M: MemoryManager>(component: &mut Component<T, M>, loc: &U16CStr)
    ensures
        final(component).memory_manager_ptr == old(component).memory_manager_ptr,
        T::locale_set(&old(component).addin, &final(component).addin, wide_str_units(loc)),
{
    component.addin.set_locale(loc)
}

} // verus!
