//! The composite object that the host holds, and what the entries of its dispatch
//! tables share: the recovery of the owning object from a sub-object, and the
//! conversions between the host's integers and the plugin's indices.

use vstd::prelude::*;
use crate::ffi::memory_manager::MemoryManager;
use crate::interface::AddInWrapper;

pub mod lang_extender;
pub mod locale_base;
pub mod memory_manager;
pub mod offset;
pub mod provided_types;
pub mod user_lang_base;

verus! {

/// The interfaces that the composite object presents, in the order in which it
/// declares their sub-objects.
#[derive(Clone, Copy, Debug, PartialEq, Eq, Structural)]
pub enum Interface {
    InitDone,
    LanguageExtender,
    Locale,
    UserLanguage,
}

/// The target families that the host's object layout differs between.
#[derive(Clone, Copy, Debug, PartialEq, Eq, Structural)]
pub enum TargetFamily {
    Unix,
    Windows,
}

/// The number of bytes in a pointer word.
pub open spec fn spec_word_size() -> int {
    usize::BITS as int / 8
}

/// The number of bytes in a pointer word.
pub fn word_size() -> (r: usize)
    ensures
        r == spec_word_size(),
{
    (usize::BITS / 8) as usize
}

impl Interface {
    /// The offset of the interface's sub-object, in pointer words: its place in the
    /// order of declaration.
    pub open spec fn spec_offset(self) -> usize {
        match self {
            Interface::InitDone => offset::INIT_DONE,
            Interface::LanguageExtender => offset::LANG_EXTENDER,
            Interface::Locale => offset::LOCALE,
            Interface::UserLanguage => offset::USER_LANG,
        }
    }

    /// The offset of the interface's sub-object, in pointer words.
    #[verifier::when_used_as_spec(spec_offset)]
    pub fn offset(self) -> (r: usize)
        ensures
            r == self.spec_offset(),
    {
        match self {
            Interface::InitDone => offset::INIT_DONE,
            Interface::LanguageExtender => offset::LANG_EXTENDER,
            Interface::Locale => offset::LOCALE,
            Interface::UserLanguage => offset::USER_LANG,
        }
    }

    /// The place of the interface in the order of declaration, counted from 0.
    pub open spec fn declared_at(self) -> int {
        match self {
            Interface::InitDone => 0,
            Interface::LanguageExtender => 1,
            Interface::Locale => 2,
            Interface::UserLanguage => 3,
        }
    }
}

/// The address of the sub-object that lies `offset` pointer words into the composite
/// object at `owner`.
pub open spec fn spec_subobject_address(owner: int, offset: int) -> int {
    owner + offset * spec_word_size()
}

/// The address of the composite object whose sub-object at `offset` pointer words has
/// the address `subobject`.
pub open spec fn spec_recover_owner(subobject: int, offset: int) -> int {
    subobject - offset * spec_word_size()
}

/// The address of the sub-object that lies `offset` pointer words into the composite
/// object at `owner`.
pub fn subobject_address(owner: usize, offset: usize) -> (r: usize)
    requires
        spec_subobject_address(owner as int, offset as int) <= usize::MAX,
    ensures
        r == spec_subobject_address(owner as int, offset as int),
{
    let word = word_size();
    assert(offset * word <= usize::MAX) by (nonlinear_arith)
        requires
            owner + offset * (usize::BITS as int / 8) <= usize::MAX,
            word == usize::BITS as int / 8,
            owner >= 0,
    ;
    owner + offset * word
}

/// Recovers the address of the composite object from the address of one of its
/// sub-objects by subtracting the sub-object's offset. Nothing is or can be checked:
/// the caller answers for `offset` being the offset of that sub-object.
pub fn recover_owner(subobject: usize, offset: usize) -> (r: usize)
    requires
        0 <= spec_recover_owner(subobject as int, offset as int),
    ensures
        r == spec_recover_owner(subobject as int, offset as int),
{
    let word = word_size();
    assert(offset * word <= subobject) by (nonlinear_arith)
        requires
            subobject - offset * (usize::BITS as int / 8) >= 0,
            word == usize::BITS as int / 8,
    ;
    subobject - offset * word
}

/// Offset recovery: from the address of the sub-object of any interface, and of a
/// sub-object at any offset, `recover_owner` with that offset gives back the address
/// of the composite object.
pub proof fn law_offset_recovery(owner: usize, interface: Interface, offset: usize)
    ensures
        spec_recover_owner(
            spec_subobject_address(owner as int, interface.spec_offset() as int),
            interface.spec_offset() as int,
        ) == owner,
        spec_recover_owner(spec_subobject_address(owner as int, offset as int), offset as int)
            == owner,
{
}

/// The offsets follow the order of declaration: each interface lies at the pointer
/// word of its place in that order, so no two interfaces share an offset.
pub proof fn law_offsets_follow_declaration(a: Interface, b: Interface)
    ensures
        a.spec_offset() == a.declared_at(),
        a.spec_offset() == b.spec_offset() ==> a == b,
{
}

/// The sub-objects of one composite object lie apart: those of two interfaces are at
/// least a pointer word from each other.
pub proof fn law_subobjects_apart(owner: usize, a: Interface, b: Interface)
    requires
        a != b,
    ensures
        spec_subobject_address(owner as int, a.spec_offset() as int) + spec_word_size()
            <= spec_subobject_address(owner as int, b.spec_offset() as int)
            || spec_subobject_address(owner as int, b.spec_offset() as int) + spec_word_size()
            <= spec_subobject_address(owner as int, a.spec_offset() as int),
{
    let w = spec_word_size();
    assert(w == 4 || w == 8);
}

/// The address that the host holds for one interface of a composite object: the
/// address of the sub-object at `OFFSET` pointer words.
#[derive(Clone, Copy, Debug)]
pub struct This<const OFFSET: usize> {
    pub address: usize,
}

impl<const OFFSET: usize> This<OFFSET> {
    /// The address of the composite object that the sub-object belongs to.
    pub fn get_component(&self) -> (r: usize)
        requires
            0 <= spec_recover_owner(self.address as int, OFFSET as int),
        ensures
            r == spec_recover_owner(self.address as int, OFFSET as int),
    {
        recover_owner(self.address, OFFSET)
    }
}

/// The number of reserved words at the head of a function table: one, and a second
/// one on the targets whose object layout keeps two destructor slots.
pub open spec fn spec_reserved_slots(family: TargetFamily) -> usize {
    match family {
        TargetFamily::Unix => 2,
        TargetFamily::Windows => 1,
    }
}

/// The number of reserved words at the head of a function table.
#[verifier::when_used_as_spec(spec_reserved_slots)]
pub fn reserved_slots(family: TargetFamily) -> (r: usize)
    ensures
        r == spec_reserved_slots(family),
{
    match family {
        TargetFamily::Unix => 2,
        TargetFamily::Windows => 1,
    }
}

/// The plugin's state behind the interfaces: the allocator handle, absent until the
/// host has initialised the object, and the plugin's capability.
pub struct Component<T: AddInWrapper, M: MemoryManager> {
    pub memory_manager_ptr: Option<M>,
    pub addin: T,
}

impl<T: AddInWrapper, M: MemoryManager> Component<T, M> {
    /// A component that has not been initialised: it has no allocator handle.
    pub fn new(addin: T) -> (r: Self)
        ensures
            r.memory_manager_ptr is None,
            r.addin == addin,
    {
        Component { memory_manager_ptr: None, addin }
    }

    /// Keeps the allocator handle that the host gave at initialisation.
    pub fn set_memory_manager(&mut self, mem: M)
        ensures
            final(self).memory_manager_ptr == Some(mem),
            final(self).addin == old(self).addin,
    {
        self.memory_manager_ptr = Some(mem);
    }
}

/// The number of values of `usize`.
pub open spec fn usize_modulus() -> int {
    usize::MAX as int + 1
}

/// The index that the plugin is asked with for a host integer: the integer itself
/// where it is an index, and the integer wrapped into the range of `usize` where it
/// is not, which no table of a plugin reaches.
pub open spec fn spec_usize_from_long(num: i64) -> usize {
    (num as int % usize_modulus()) as usize
}

/// The host integer that stands for a count or an index of the plugin: the number
/// itself where it fits, and the number wrapped into the range of the host integer
/// where it does not.
pub open spec fn spec_long_from_usize(n: usize) -> i64 {
    if n <= i64::MAX {
        n as i64
    } else {
        (n as int - 0x1_0000_0000_0000_0000) as i64
    }
}

/// Wrapping a negative integer into a range of `modulus` values counts down from the
/// top of the range.
proof fn lemma_wrap_negative(num: int, modulus: int)
    requires
        num < 0,
        modulus == 0x1_0000_0000 || modulus == 0x1_0000_0000_0000_0000,
    ensures
        num % modulus == modulus - 1 - ((-(num + 1)) % modulus),
{
    if modulus == 0x1_0000_0000 {
        assert(num % 0x1_0000_0000 == 0x1_0000_0000 - 1 - ((-(num + 1)) % 0x1_0000_0000));
    } else {
        assert(num % 0x1_0000_0000_0000_0000 == 0x1_0000_0000_0000_0000 - 1 - ((-(num + 1))
            % 0x1_0000_0000_0000_0000));
    }
}

/// Converts a host integer to an index.
pub fn usize_from_long(num: i64) -> (r: usize)
    ensures
        r == spec_usize_from_long(num),
        0 <= num <= usize::MAX ==> r == num,
        -usize_modulus() <= num < 0 ==> r == num + usize_modulus(),
{
    let narrow: bool = usize::MAX as u64 != u64::MAX;
    assert(usize_modulus() == 0x1_0000_0000 || usize_modulus() == 0x1_0000_0000_0000_0000);
    if num >= 0 {
        let n: u64 = num as u64;
        if narrow {
            let m: u64 = usize::MAX as u64 + 1;
            (n % m) as usize
        } else {
            assert(num as int % 0x1_0000_0000_0000_0000 == num);
            n as usize
        }
    } else {
        let k: u64 = (-(num + 1)) as u64;
        proof {
            lemma_wrap_negative(num as int, usize_modulus());
        }
        if narrow {
            let m: u64 = usize::MAX as u64 + 1;
            usize::MAX - ((k % m) as usize)
        } else {
            assert(k as int % 0x1_0000_0000_0000_0000 == k);
            usize::MAX - (k as usize)
        }
    }
}

/// Converts a count or an index to a host integer.
pub fn long_from_usize(n: usize) -> (r: i64)
    ensures
        r == spec_long_from_usize(n),
{
    let wide: u64 = n as u64;
    if wide <= i64::MAX as u64 {
        wide as i64
    } else {
        let above: u64 = wide - 0x8000_0000_0000_0000;
        (above as i64) + i64::MIN
    }
}

/// The host integer that answers a lookup by name: the index found, or -1.
pub open spec fn spec_long_from_found(found: Option<usize>) -> i64 {
    match found {
        Some(i) => spec_long_from_usize(i),
        None => -1i64,
    }
}

/// Converts the answer of a lookup by name to a host integer.
pub fn long_from_found(found: Option<usize>) -> (r: i64)
    ensures
        r == spec_long_from_found(found),
{
    match found {
        Some(i) => long_from_usize(i),
        None => -1,
    }
}

/// The number of raw variants that the host supplies for a call, given the address
/// of the first and the length that the host names: none where the address is null and
/// the length is zero, the named length under an address that is not null, and no
/// number at all where a null address comes with a length that is not zero or the
/// length is no count.
pub open spec fn spec_argument_count(params: usize, size_array: i64) -> Option<usize> {
    if params == 0 {
        if size_array == 0 {
            Some(0usize)
        } else {
            None
        }
    } else if 0 <= size_array <= usize::MAX {
        Some(size_array as usize)
    } else {
        None
    }
}

/// The number of raw variants to read for a call. From a null address nothing is
/// ever read.
pub fn argument_count(params: usize, size_array: i64) -> (r: Option<usize>)
    ensures
        r == spec_argument_count(params, size_array),
        params == 0 ==> r == Some(0usize) || r is None,
{
    if params == 0 {
        if size_array == 0 {
            Some(0)
        } else {
            None
        }
    } else if size_array >= 0 && size_array as u64 <= usize::MAX as u64 {
        Some(size_array as usize)
    } else {
        None
    }
}

} // verus!
