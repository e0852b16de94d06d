//! What plugin logic is written against: the owned values, and the capability that a
//! plugin supplies and the bridge calls.

use vstd::prelude::*;
use widestring::U16CStr;
use crate::interface::param_value::ParamValue;
use crate::interface::param_value::ParamValues;
use crate::interface::param_value::ParamValueView;
use crate::interface::wide::wide_str_units;

pub mod param_type;
pub mod param_value;
pub mod wide;

verus! {

/// The result of a call into the capability: the value, or the mark of a failed call.
pub type AddInWrapperResult<T> = Result<T, ()>;

/// The capability that a plugin supplies: its name tables, its properties and its
/// methods. Indices are 0-based; a name has a primary form (alias 0) and an alternate
/// localized form (any other alias).
///
/// Each method that may change the plugin comes with a relation between the plugin
/// before and after the call, the arguments and the outcome. The relation holds of
/// everything unless an implementation defines it more narrowly, so the contracts of
/// these methods ask nothing of an implementation that leaves the relations alone.
/// The bridge states through them which call it made and what it did with the outcome.
pub trait AddInWrapper {
    /// A call of `register_extension_as` may take the plugin from `pre` to `post` and
    /// give the name with the code units `name`.
    open spec fn registered(pre: &Self, post: &Self, name: Seq<u16>) -> bool {
        true
    }

    /// The name under which the host registers the extension.
    fn register_extension_as(&mut self) -> (name: &U16CStr)
        ensures
            Self::registered(old(self), final(self), wide_str_units(name)),
    ;

    /// The number of properties.
    fn get_n_props(&self) -> usize;

    /// The index of the property that has `name` as its primary or alternate name.
    fn find_prop(&self, name: &U16CStr) -> Option<usize>;

    /// The name of property `num`: the primary name for alias 0, the alternate name
    /// for any other alias, and none where there is no such property.
    fn get_prop_name(&self, num: usize, alias: usize) -> Option<&U16CStr>;

    /// The value of property `num`, or a failure where it cannot be read.
    fn get_prop_val(&self, num: usize) -> AddInWrapperResult<ParamValue>;

    /// A call of `set_prop_val` on property `num` with a value that holds `val` may
    /// take the plugin from `pre` to `post` and succeed or not, as `ok` says.
    open spec fn prop_set(pre: &Self, post: &Self, num: usize, val: ParamValueView, ok: bool) -> bool {
        true
    }

    /// Sets property `num`, or fails where it cannot be written or the value is of
    /// another kind.
    fn set_prop_val(&mut self, num: usize, val: ParamValue) -> (r: AddInWrapperResult<()>)
        ensures
            Self::prop_set(old(self), final(self), num, val@, r is Ok),
    ;

    /// Whether property `num` can be read.
    fn is_prop_readable(&self, num: usize) -> bool;

    /// Whether property `num` can be written.
    fn is_prop_writable(&self, num: usize) -> bool;

    /// The number of methods.
    fn get_n_methods(&self) -> usize;

    /// The index of the method that has `name` as its primary or alternate name.
    fn find_method(&self, name: &U16CStr) -> Option<usize>;

    /// The name of method `num`: the primary name for alias 0, the alternate name for
    /// any other alias, and none where there is no such method.
    fn get_method_name(&self, num: usize, alias: usize) -> Option<&U16CStr>;

    /// The number of parameters of method `num`.
    fn get_n_params(&self, num: usize) -> usize;

    /// The default value of parameter `param_num` of method `method_num`, if it has one.
    fn get_param_def_value(&self, method_num: usize, param_num: usize) -> Option<ParamValue>;

    /// Whether method `method_num` returns a value.
    fn has_ret_val(&self, method_num: usize) -> bool;

    /// A call of `call_as_proc` on method `method_num` may take the plugin from `pre`
    /// to `post` and the parameters from `before` to `after`, and succeed or not, as
    /// `ok` says.
    open spec fn called_as_proc(
        pre: &Self,
        post: &Self,
        method_num: usize,
        before: Seq<ParamValueView>,
        after: Seq<ParamValueView>,
        ok: bool,
    ) -> bool {
        true
    }

    /// Calls method `method_num` as a procedure. The method may change the parameters
    /// in place; their number stays.
    fn call_as_proc(&mut self, method_num: usize, params: &mut ParamValues) -> (r:
        AddInWrapperResult<()>)
        ensures
            Self::called_as_proc(
                old(self),
                final(self),
                method_num,
                old(params)@,
                final(params)@,
                r is Ok,
            ),
    ;

    /// A call of `call_as_func` on method `method_num` may take the plugin from `pre`
    /// to `post` and the parameters from `before` to `after`, and return the value
    /// that holds `returned`, or fail where `returned` is `None`.
    open spec fn called_as_func(
        pre: &Self,
        post: &Self,
        method_num: usize,
        before: Seq<ParamValueView>,
        after: Seq<ParamValueView>,
        returned: Option<ParamValueView>,
    ) -> bool {
        true
    }

    /// Calls method `method_num` as a function and gives the value that it returns.
    /// The method may change the parameters in place; their number stays.
    fn call_as_func(&mut self, method_num: usize, params: &mut ParamValues) -> (r:
        AddInWrapperResult<ParamValue>)
        ensures
            Self::called_as_func(
                old(self),
                final(self),
                method_num,
                old(params)@,
                final(params)@,
                match r {
                    Ok(v) => Some(v@),
                    Err(_) => None,
                },
            ),
    ;

    /// A call of `set_locale` with the locale of code units `loc` may take the plugin
    /// from `pre` to `post`.
    open spec fn locale_set(pre: &Self, post: &Self, loc: Seq<u16>) -> bool {
        true
    }

    /// Takes note of the host's locale.
    fn set_locale(&mut self, loc: &U16CStr)
        ensures
            Self::locale_set(old(self), final(self), wide_str_units(loc)),
    ;

    /// A call of `set_user_interface_language_code` with the language code of code
    /// units `lang` may take the plugin from `pre` to `post`.
    open spec fn user_interface_language_code_set(pre: &Self, post: &Self, lang: Seq<u16>) -> bool {
        true
    }

    /// Takes note of the language of the host's user interface.
    fn set_user_interface_language_code(&mut self, lang: &U16CStr)
        ensures
            Self::user_interface_language_code_set(old(self), final(self), wide_str_units(lang)),
    ;
}

} // verus!
