//! The primary extension protocol: the entries through which the host asks for the
//! plugin's name, properties and methods, and calls its methods.
//!
//! An entry takes the composite object's state and the host's arguments as plain
//! values, and answers with the value that the host's calling convention expects:
//! `true` for success, a count or an index, or a name that is absent where the raw
//! answer is a null pointer.

use vstd::prelude::*;
use widestring::U16CStr;
use crate::ffi::Component;
use crate::ffi::long_from_found;
use crate::ffi::long_from_usize;
use crate::ffi::memory_manager::MemoryManager;
use crate::ffi::offset::LANG_EXTENDER;
use crate::ffi::provided_types::allocate_all;
use crate::ffi::provided_types::allocate_for;
use crate::ffi::provided_types::allocation_answer;
use crate::ffi::provided_types::answers_for;
use crate::ffi::provided_types::can_store;
use crate::ffi::provided_types::copy_units;
use crate::ffi::provided_types::DataStr;
use crate::ffi::provided_types::raw_views_of;
use crate::ffi::provided_types::stored;
use crate::ffi::provided_types::tagged_all;
use crate::ffi::provided_types::to_values;
use crate::ffi::provided_types::TVariant;
use crate::ffi::provided_types::updated_from_return;
use crate::ffi::provided_types::write_back;
use crate::ffi::provided_types::write_back_result;
use crate::ffi::provided_types::write_back_with;
use crate::ffi::reserved_slots;
use crate::ffi::spec_long_from_found;
use crate::ffi::spec_long_from_usize;
use crate::ffi::spec_reserved_slots;
use crate::ffi::spec_usize_from_long;
use crate::ffi::TargetFamily;
use crate::ffi::usize_from_long;
use crate::interface::AddInWrapper;
use crate::interface::param_value::ParamValue;
use crate::interface::param_value::ParamValues;
use crate::interface::param_value::ParamValueView;
use crate::interface::wide::wide_str_as_slice;
use crate::interface::wide::wide_str_units;

verus! {

/// The address that the host holds for the primary extension interface.
pub type This = crate::ffi::This<LANG_EXTENDER>;

/// The entries of the primary extension protocol, in the order of their slots.
#[derive(Clone, Copy, Debug, PartialEq, Eq, Structural)]
pub enum LanguageExtenderEntry {
    RegisterExtensionAs,
    GetNProps,
    FindProp,
    GetPropName,
    GetPropVal,
    SetPropVal,
    IsPropReadable,
    IsPropWritable,
    GetNMethods,
    FindMethod,
    GetMethodName,
    GetNParams,
    GetParamDefValue,
    HasRetVal,
    CallAsProc,
    CallAsFunc,
}

/// The function table of the primary extension protocol as the host reads it: the
/// reserved words, then one slot for each entry.
#[derive(Debug, PartialEq, Eq)]
pub struct LanguageExtenderBaseVTable {
    pub dtor: usize,
    /// The second reserved word, on the targets that have one.
    pub dtor2: Option<usize>,
    pub entries: Vec<LanguageExtenderEntry>,
}

/// The entries of the primary extension protocol in the order that the host fixes.
pub open spec fn language_extender_entries() -> Seq<LanguageExtenderEntry> {
    seq![
        LanguageExtenderEntry::RegisterExtensionAs,
        LanguageExtenderEntry::GetNProps,
        LanguageExtenderEntry::FindProp,
        LanguageExtenderEntry::GetPropName,
        LanguageExtenderEntry::GetPropVal,
        LanguageExtenderEntry::SetPropVal,
        LanguageExtenderEntry::IsPropReadable,
        LanguageExtenderEntry::IsPropWritable,
        LanguageExtenderEntry::GetNMethods,
        LanguageExtenderEntry::FindMethod,
        LanguageExtenderEntry::GetMethodName,
        LanguageExtenderEntry::GetNParams,
        LanguageExtenderEntry::GetParamDefValue,
        LanguageExtenderEntry::HasRetVal,
        LanguageExtenderEntry::CallAsProc,
        LanguageExtenderEntry::CallAsFunc,
    ]
}

impl LanguageExtenderEntry {
    /// The place of the entry among the entries of its protocol, counted from 0.
    pub open spec fn spec_position(self) -> usize {
        match self {
            LanguageExtenderEntry::RegisterExtensionAs => 0,
            LanguageExtenderEntry::GetNProps => 1,
            LanguageExtenderEntry::FindProp => 2,
            LanguageExtenderEntry::GetPropName => 3,
            LanguageExtenderEntry::GetPropVal => 4,
            LanguageExtenderEntry::SetPropVal => 5,
            LanguageExtenderEntry::IsPropReadable => 6,
            LanguageExtenderEntry::IsPropWritable => 7,
            LanguageExtenderEntry::GetNMethods => 8,
            LanguageExtenderEntry::FindMethod => 9,
            LanguageExtenderEntry::GetMethodName => 10,
            LanguageExtenderEntry::GetNParams => 11,
            LanguageExtenderEntry::GetParamDefValue => 12,
            LanguageExtenderEntry::HasRetVal => 13,
            LanguageExtenderEntry::CallAsProc => 14,
            LanguageExtenderEntry::CallAsFunc => 15,
        }
    }

    /// The place of the entry among the entries of its protocol, counted from 0.
    #[verifier::when_used_as_spec(spec_position)]
    pub fn position(self) -> (r: usize)
        ensures
            r == self.spec_position(),
            language_extender_entries()[r as int] == self,
    {
        match self {
            LanguageExtenderEntry::RegisterExtensionAs => 0,
            LanguageExtenderEntry::GetNProps => 1,
            LanguageExtenderEntry::FindProp => 2,
            LanguageExtenderEntry::GetPropName => 3,
            LanguageExtenderEntry::GetPropVal => 4,
            LanguageExtenderEntry::SetPropVal => 5,
            LanguageExtenderEntry::IsPropReadable => 6,
            LanguageExtenderEntry::IsPropWritable => 7,
            LanguageExtenderEntry::GetNMethods => 8,
            LanguageExtenderEntry::FindMethod => 9,
            LanguageExtenderEntry::GetMethodName => 10,
            LanguageExtenderEntry::GetNParams => 11,
            LanguageExtenderEntry::GetParamDefValue => 12,
            LanguageExtenderEntry::HasRetVal => 13,
            LanguageExtenderEntry::CallAsProc => 14,
            LanguageExtenderEntry::CallAsFunc => 15,
        }
    }
}

impl LanguageExtenderBaseVTable {
    /// The table for a target family: reserved words of zero, and the entries in the
    /// order that the host fixes.
    pub fn new(family: TargetFamily) -> (r: Self)
        ensures
            r.dtor == 0,
            r.dtor2 == (match family {
                TargetFamily::Unix => Some(0usize),
                TargetFamily::Windows => None,
            }),
            r.entries@ == language_extender_entries(),
    {
        let mut entries: Vec<LanguageExtenderEntry> = Vec::new();
        entries.push(LanguageExtenderEntry::RegisterExtensionAs);
        entries.push(LanguageExtenderEntry::GetNProps);
        entries.push(LanguageExtenderEntry::FindProp);
        entries.push(LanguageExtenderEntry::GetPropName);
        entries.push(LanguageExtenderEntry::GetPropVal);
        entries.push(LanguageExtenderEntry::SetPropVal);
        entries.push(LanguageExtenderEntry::IsPropReadable);
        entries.push(LanguageExtenderEntry::IsPropWritable);
        entries.push(LanguageExtenderEntry::GetNMethods);
        entries.push(LanguageExtenderEntry::FindMethod);
        entries.push(LanguageExtenderEntry::GetMethodName);
        entries.push(LanguageExtenderEntry::GetNParams);
        entries.push(LanguageExtenderEntry::GetParamDefValue);
        entries.push(LanguageExtenderEntry::HasRetVal);
        entries.push(LanguageExtenderEntry::CallAsProc);
        entries.push(LanguageExtenderEntry::CallAsFunc);
        let dtor2: Option<usize> = match family {
            TargetFamily::Unix => Some(0),
            TargetFamily::Windows => None,
        };
        proof {
            assert(entries@ =~= language_extender_entries());
        }
        LanguageExtenderBaseVTable { dtor: 0, dtor2, entries }
    }

    /// The slot of an entry in the table of a target family: the reserved words
    /// come first, then the entries in their order.
    pub fn slot(family: TargetFamily, entry: LanguageExtenderEntry) -> (r: usize)
        ensures
            r == spec_reserved_slots(family) + entry.spec_position(),
    {
        reserved_slots(family) + entry.position()
    }
}

/// The name that the host receives for the code units `units`, given the allocator's
/// answer to the request for their buffer: the buffer's address with the code units
/// in it, or no name where the answer is not the address of a buffer.
pub open spec fn spec_name_at(units: Seq<u16>, answer: Option<usize>) -> Option<(usize, Seq<u16>)> {
    match answer {
        Some(ptr) => if ptr != 0 {
            Some((ptr, units))
        } else {
            None
        },
        None => None,
    }
}

/// What a name holds, if there is one: the address of its buffer and its code units.
pub open spec fn name_view(name: Option<DataStr>) -> Option<(usize, Seq<u16>)> {
    match name {
        Some(data) => Some((data.ptr, data.units@)),
        None => None,
    }
}

/// `name` is what the host receives for the code units `units`: the allocator was
/// asked for a buffer of their number, and the name follows from its answer.
pub open spec fn name_marshalled<M: MemoryManager>(
    mem: &M,
    units: Seq<u16>,
    name: Option<(usize, Seq<u16>)>,
) -> bool {
    exists|answer: Option<usize>|
        call_ensures(M::alloc_str, (mem, units.len() as usize), answer) && name == #[trigger] spec_name_at(
            units,
            answer,
        )
}

/// Copies a name into the buffer that the allocator answered with.
pub fn name_at(name: &U16CStr, answer: Option<usize>) -> (r: Option<DataStr>)
    ensures
        name_view(r) == spec_name_at(wide_str_units(name), answer),
{
    match answer {
        Some(ptr) => {
            if ptr != 0 {
                Some(DataStr { ptr, units: copy_units(wide_str_as_slice(name)) })
            } else {
                None
            }
        },
        None => None,
    }
}

/// Asks the allocator for a buffer of the length of `name` and copies the name into it.
pub fn marshal_name<M: MemoryManager>(mem: &M, name: &U16CStr) -> (r: Option<DataStr>)
    ensures
        name_marshalled(mem, wide_str_units(name), name_view(r)),
{
    let len = wide_str_as_slice(name).len();
    let answer = mem.alloc_str(len);
    let r = name_at(name, answer);
    proof {
        assert(name_view(r) == spec_name_at(wide_str_units(name), answer));
    }
    r
}

/// The plugin's name for the host to register it under, in a buffer of the host's.
/// Without an allocator handle the plugin is not asked and nothing is written.
pub fn register_extension_as<T: AddInWrapper, M: MemoryManager>(
    component: &mut Component<T, M>,
    name: &mut DataStr,
) -> (ok: bool)
    ensures
        final(component).memory_manager_ptr == old(component).memory_manager_ptr,
        match old(component).memory_manager_ptr {
            None => !ok && *final(name) == *old(name) && final(component).addin == old(
                component,
            ).addin,
            Some(mem) => exists|units: Seq<u16>|
                {
                    &&& #[trigger] T::registered(
                        &old(component).addin,
                        &final(component).addin,
                        units,
                    )
                    &&& if ok {
                        name_marshalled(&mem, units, Some((final(name).ptr, final(name).units@)))
                    } else {
                        name_marshalled(&mem, units, None) && *final(name) == *old(name)
                    }
                },
        },
{
    let mem = match &component.memory_manager_ptr {
        Some(mem) => mem,
        None => {
            return false;
        },
    };
    let extension_name = component.addin.register_extension_as();
    let ghost units = wide_str_units(extension_name);
    let marshalled = marshal_name(mem, extension_name);
    proof {
        assert(T::registered(&old(component).addin, &component.addin, units));
    }
    match marshalled {
        Some(data) => {
            *name = data;
            true
        },
        None => false,
    }
}

/// The number of properties.
pub fn get_n_props<T: AddInWrapper, M: MemoryManager>(component: &Component<T, M>) -> (r: i64)
    ensures
        exists|n: usize|
            call_ensures(T::get_n_props, (&component.addin,), n) && r == #[trigger] spec_long_from_usize(
                n,
            ),
{
    long_from_usize(component.addin.get_n_props())
}

/// The index of the property with the given name, or -1 where the plugin knows none.
pub fn find_prop<T: AddInWrapper, M: MemoryManager>(
    component: &Component<T, M>,
    name: &U16CStr,
) -> (r: i64)
    ensures
        exists|found: Option<usize>|
            call_ensures(T::find_prop, (&component.addin, name), found) && r == #[trigger] spec_long_from_found(
                found,
            ),
{
    long_from_found(component.addin.find_prop(name))
}

/// The name of property `num` in a buffer of the host's: the primary name for alias
/// 0, the alternate name for any other alias, and no name where the plugin has none
/// for that index, the allocator handle is absent or the allocator gives no buffer.
pub fn get_prop_name<T: AddInWrapper, M: MemoryManager>(
    component: &Component<T, M>,
    num: i64,
    alias: i64,
) -> (r: Option<DataStr>)
    ensures
        match component.memory_manager_ptr {
            None => r is None,
            Some(mem) => exists|found: Option<&U16CStr>|
                {
                    &&& #[trigger] call_ensures(
                        T::get_prop_name,
                        (&component.addin, spec_usize_from_long(num), spec_usize_from_long(alias)),
                        found,
                    )
                    &&& match found {
                        Some(name) => name_marshalled(&mem, wide_str_units(name), name_view(r)),
                        None => r is None,
                    }
                },
        },
{
    let mem = match &component.memory_manager_ptr {
        Some(mem) => mem,
        None => {
            return None;
        },
    };
    match component.addin.get_prop_name(usize_from_long(num), usize_from_long(alias)) {
        Some(prop_name) => marshal_name(mem, prop_name),
        None => None,
    }
}

/// Reads property `num` into the slot `val`. Fails, with the slot as it was, where
/// the allocator handle is absent, the plugin reports a failure, or the value cannot
/// be stored.
pub fn get_prop_val<T: AddInWrapper, M: MemoryManager>(
    component: &Component<T, M>,
    num: i64,
    val: &mut TVariant,
) -> (ok: bool)
    ensures
        match component.memory_manager_ptr {
            None => !ok && *final(val) == *old(val),
            Some(mem) => exists|read: Result<ParamValue, ()>|
                {
                    &&& #[trigger] call_ensures(
                        T::get_prop_val,
                        (&component.addin, spec_usize_from_long(num)),
                        read,
                    )
                    &&& match read {
                        Ok(value) => updated_from_return(&mem, value@, *old(val), *final(val), ok),
                        Err(_) => !ok && *final(val) == *old(val),
                    }
                },
        },
{
    let mem = match &component.memory_manager_ptr {
        Some(mem) => mem,
        None => {
            return false;
        },
    };
    match component.addin.get_prop_val(usize_from_long(num)) {
        Ok(prop_val) => val.update_from_return(mem, &prop_val),
        Err(_) => false,
    }
}

/// Sets property `num` to the value read from the raw variant `val`, and says whether
/// the plugin accepted it.
pub fn set_prop_val<T: AddInWrapper, M: MemoryManager>(
    component: &mut Component<T, M>,
    num: i64,
    val: &TVariant,
) -> (ok: bool)
    ensures
        final(component).memory_manager_ptr == old(component).memory_manager_ptr,
        T::prop_set(
            &old(component).addin,
            &final(component).addin,
            spec_usize_from_long(num),
            val@.tagged(),
            ok,
        ),
{
    let value = ParamValue::from_variant(val);
    component.addin.set_prop_val(usize_from_long(num), value).is_ok()
}

/// Whether property `num` can be read.
pub fn is_prop_readable<T: AddInWrapper, M: MemoryManager>(
    component: &Component<T, M>,
    num: i64,
) -> (r: bool)
    ensures
        call_ensures(T::is_prop_readable, (&component.addin, spec_usize_from_long(num)), r),
{
    component.addin.is_prop_readable(usize_from_long(num))
}

/// Whether property `num` can be written.
pub fn is_prop_writable<T: AddInWrapper, M: MemoryManager>(
    component: &Component<T, M>,
    num: i64,
) -> (r: bool)
    ensures
        call_ensures(T::is_prop_writable, (&component.addin, spec_usize_from_long(num)), r),
{
    component.addin.is_prop_writable(usize_from_long(num))
}

/// The number of methods.
pub fn get_n_methods<T: AddInWrapper, M: MemoryManager>(component: &Component<T, M>) -> (r: i64)
    ensures
        exists|n: usize|
            call_ensures(T::get_n_methods, (&component.addin,), n) && r == #[trigger] spec_long_from_usize(
                n,
            ),
{
    long_from_usize(component.addin.get_n_methods())
}

/// The index of the method with the given name, or -1 where the plugin knows none.
pub fn find_method<T: AddInWrapper, M: MemoryManager>(
    component: &Component<T, M>,
    name: &U16CStr,
) -> (r: i64)
    ensures
        exists|found: Option<usize>|
            call_ensures(T::find_method, (&component.addin, name), found) && r == #[trigger] spec_long_from_found(
                found,
            ),
{
    long_from_found(component.addin.find_method(name))
}

/// The name of method `num` in a buffer of the host's: the primary name for alias 0,
/// the alternate name for any other alias, and no name where the plugin has none for
/// that index, the allocator handle is absent or the allocator gives no buffer.
pub fn get_method_name<T: AddInWrapper, M: MemoryManager>(
    component: &Component<T, M>,
    num: i64,
    alias: i64,
) -> (r: Option<DataStr>)
    ensures
        match component.memory_manager_ptr {
            None => r is None,
            Some(mem) => exists|found: Option<&U16CStr>|
                {
                    &&& #[trigger] call_ensures(
                        T::get_method_name,
                        (&component.addin, spec_usize_from_long(num), spec_usize_from_long(alias)),
                        found,
                    )
                    &&& match found {
                        Some(name) => name_marshalled(&mem, wide_str_units(name), name_view(r)),
                        None => r is None,
                    }
                },
        },
{
    let mem = match &component.memory_manager_ptr {
        Some(mem) => mem,
        None => {
            return None;
        },
    };
    match component.addin.get_method_name(usize_from_long(num), usize_from_long(alias)) {
        Some(method_name) => marshal_name(mem, method_name),
        None => None,
    }
}

/// The number of parameters of method `num`.
pub fn get_n_params<T: AddInWrapper, M: MemoryManager>(
    component: &Component<T, M>,
    num: i64,
) -> (r: i64)
    ensures
        exists|n: usize|
            call_ensures(T::get_n_params, (&component.addin, spec_usize_from_long(num)), n) && r
                == #[trigger] spec_long_from_usize(n),
{
    long_from_usize(component.addin.get_n_params(usize_from_long(num)))
}

/// Reads the default value of parameter `param_num` of method `method_num` into the
/// slot `val`. Fails, with the slot as it was, where the allocator handle is absent,
/// the plugin has no default for that parameter, or the value cannot be stored.
pub fn get_param_def_value<T: AddInWrapper, M: MemoryManager>(
    component: &Component<T, M>,
    method_num: i64,
    param_num: i64,
    val: &mut TVariant,
) -> (ok: bool)
    ensures
        match component.memory_manager_ptr {
            None => !ok && *final(val) == *old(val),
            Some(mem) => exists|default: Option<ParamValue>|
                {
                    &&& #[trigger] call_ensures(
                        T::get_param_def_value,
                        (
                            &component.addin,
                            spec_usize_from_long(method_num),
                            spec_usize_from_long(param_num),
                        ),
                        default,
                    )
                    &&& match default {
                        Some(value) => updated_from_return(&mem, value@, *old(val), *final(val), ok),
                        None => !ok && *final(val) == *old(val),
                    }
                },
        },
{
    let mem = match &component.memory_manager_ptr {
        Some(mem) => mem,
        None => {
            return false;
        },
    };
    match component.addin.get_param_def_value(
        usize_from_long(method_num),
        usize_from_long(param_num),
    ) {
        Some(def_value) => val.update_from_return(mem, &def_value),
        None => false,
    }
}

/// Whether method `method_num` returns a value.
pub fn has_ret_val<T: AddInWrapper, M: MemoryManager>(
    component: &Component<T, M>,
    method_num: i64,
) -> (r: bool)
    ensures
        call_ensures(T::has_ret_val, (&component.addin, spec_usize_from_long(method_num)), r),
{
    component.addin.has_ret_val(usize_from_long(method_num))
}

/// Calls method `method_num` as a procedure on the host's run of raw variants.
///
/// Every raw variant is read once into an owned value, the plugin is called on the
/// values, and after a successful call every value is written back to the slot at its
/// place. Without an allocator handle the plugin is not called. Where the plugin
/// reports a failure, or the values cannot all be written back, the slots are as they
/// were and the answer is `false`.
pub fn call_as_proc<T: AddInWrapper, M: MemoryManager>(
    component: &mut Component<T, M>,
    method_num: i64,
    params: &mut [TVariant],
) -> (ok: bool)
    ensures
        final(component).memory_manager_ptr == old(component).memory_manager_ptr,
        final(params)@.len() == old(params)@.len(),
        !ok ==> final(params)@ == old(params)@,
        match old(component).memory_manager_ptr {
            None => !ok && final(component).addin == old(component).addin,
            Some(mem) => exists|after: Seq<ParamValueView>, called: bool|
                {
                    &&& #[trigger] T::called_as_proc(
                        &old(component).addin,
                        &final(component).addin,
                        spec_usize_from_long(method_num),
                        tagged_all(raw_views_of(old(params)@)),
                        after,
                        called,
                    )
                    &&& if called {
                        write_back_result(
                            &mem,
                            raw_views_of(old(params)@),
                            after,
                            ok,
                            raw_views_of(final(params)@),
                        )
                    } else {
                        !ok
                    }
                },
        },
{
    let mem = match &component.memory_manager_ptr {
        Some(mem) => mem,
        None => {
            return false;
        },
    };
    let mut parameters_values = to_values(params);
    let ghost before = parameters_values@;
    let call_result = component.addin.call_as_proc(
        usize_from_long(method_num),
        &mut parameters_values,
    );
    proof {
        assert(T::called_as_proc(
            &old(component).addin,
            &component.addin,
            spec_usize_from_long(method_num),
            before,
            parameters_values@,
            call_result is Ok,
        ));
    }
    match call_result {
        Ok(_) => write_back(params, mem, &parameters_values),
        Err(_) => false,
    }
}

/// The outcome of handing the result of a function call to the host: on success the
/// return slot holds the returned value and every parameter slot holds its value; on
/// failure the return slot and the parameter slots are as they were, and the
/// allocator refused a buffer or the number of values is not the number of slots.
pub open spec fn function_returned<M: MemoryManager>(
    mem: &M,
    returned: ParamValueView,
    ret_before: TVariant,
    ret_after: TVariant,
    before: Seq<TVariant>,
    values: Seq<ParamValueView>,
    after: Seq<TVariant>,
    ok: bool,
) -> bool {
    if ok {
        &&& updated_from_return(mem, returned, ret_before, ret_after, true)
        &&& write_back_result(mem, raw_views_of(before), values, true, raw_views_of(after))
    } else {
        &&& ret_after == ret_before
        &&& after == before
        &&& {
            ||| updated_from_return(mem, returned, ret_before, ret_before, false)
            ||| write_back_result(mem, raw_views_of(before), values, false, raw_views_of(before))
        }
    }
}

/// Hands the result of a function call to the host: the returned value through the
/// return slot, then every parameter value through the slot at its place. The buffers
/// are asked of the allocator first, so that the slots are written all together or not
/// at all.
pub fn return_function<M: MemoryManager>(
    mem: &M,
    returned: &ParamValue,
    ret_value: &mut TVariant,
    values: &ParamValues,
    params: &mut [TVariant],
) -> (ok: bool)
    ensures
        function_returned(
            mem,
            returned@,
            *old(ret_value),
            *final(ret_value),
            old(params)@,
            values@,
            final(params)@,
            ok,
        ),
        final(params)@.len() == old(params)@.len(),
{
    if values.len() != params.len() {
        return false;
    }
    let ret_answer = allocate_for(mem, returned);
    if !can_store(returned, ret_answer) {
        proof {
            assert(allocation_answer(mem, returned@, ret_answer));
            assert(ret_value@.after_write(returned@, ret_answer) == ret_value@);
        }
        return false;
    }
    match allocate_all(mem, values) {
        Some(answers) => {
            let _ = ret_value.store(returned, ret_answer);
            let _ = write_back_with(params, values, &answers);
            proof {
                assert(allocation_answer(mem, returned@, ret_answer));
                assert(answers_for(mem, values@, answers@));
            }
            true
        },
        None => false,
    }
}

/// Calls method `method_num` as a function on the host's run of raw variants.
///
/// The arguments are handled as in `call_as_proc`. After a successful call the
/// returned value is written to the return slot, and then every value is written back
/// to the slot at its place. Without an allocator handle the plugin is not called.
/// Where the plugin reports a failure, or the values cannot all be written, the return
/// slot and the parameter slots are as they were and the answer is `false`.
pub fn call_as_func<T: AddInWrapper, M: MemoryManager>(
    component: &mut Component<T, M>,
    method_num: i64,
    ret_value: &mut TVariant,
    params: &mut [TVariant],
) -> (ok: bool)
    ensures
        final(component).memory_manager_ptr == old(component).memory_manager_ptr,
        final(params)@.len() == old(params)@.len(),
        !ok ==> final(params)@ == old(params)@ && *final(ret_value) == *old(ret_value),
        match old(component).memory_manager_ptr {
            None => !ok && final(component).addin == old(component).addin,
            Some(mem) => exists|after: Seq<ParamValueView>, returned: Option<ParamValueView>|
                {
                    &&& #[trigger] T::called_as_func(
                        &old(component).addin,
                        &final(component).addin,
                        spec_usize_from_long(method_num),
                        tagged_all(raw_views_of(old(params)@)),
                        after,
                        returned,
                    )
                    &&& match returned {
                        Some(value) => function_returned(
                            &mem,
                            value,
                            *old(ret_value),
                            *final(ret_value),
                            old(params)@,
                            after,
                            final(params)@,
                            ok,
                        ),
                        None => !ok,
                    }
                },
        },
{
    let mem = match &component.memory_manager_ptr {
        Some(mem) => mem,
        None => {
            return false;
        },
    };
    let mut parameters_values = to_values(params);
    let ghost before = parameters_values@;
    let call_result = component.addin.call_as_func(
        usize_from_long(method_num),
        &mut parameters_values,
    );
    proof {
        assert(T::called_as_func(
            &old(component).addin,
            &component.addin,
            spec_usize_from_long(method_num),
            before,
            parameters_values@,
            match call_result {
                Ok(v) => Some(v@),
                Err(_) => None,
            },
        ));
    }
    match call_result {
        Ok(ret_val) => return_function(mem, &ret_val, ret_value, &parameters_values, params),
        Err(_) => false,
    }
}

} // verus!
