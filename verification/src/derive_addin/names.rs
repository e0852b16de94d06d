//! The names that the generated code gives to what it declares: each is a fixed word
//! followed by the place of a property, a method or a parameter, counted from 1.

use vstd::prelude::*;

verus! {

/// The character of a decimal digit.
pub open spec fn spec_digit(d: nat) -> char {
    if d == 0 {
        '0'
    } else if d == 1 {
        '1'
    } else if d == 2 {
        '2'
    } else if d == 3 {
        '3'
    } else if d == 4 {
        '4'
    } else if d == 5 {
        '5'
    } else if d == 6 {
        '6'
    } else if d == 7 {
        '7'
    } else if d == 8 {
        '8'
    } else {
        '9'
    }
}

/// The decimal numeral of a number, without leading zeros.
pub open spec fn spec_decimal(n: nat) -> Seq<char>
    decreases n,
{
    if n < 10 {
        seq![spec_digit(n)]
    } else {
        spec_decimal(n / 10).push(spec_digit(n % 10))
    }
}

/// The text of one decimal digit.
pub fn digit(d: usize) -> (r: &'static str)
    requires
        d < 10,
    ensures
        r@ == seq![spec_digit(d as nat)],
{
    proof {
        reveal_strlit("0");
        reveal_strlit("1");
        reveal_strlit("2");
        reveal_strlit("3");
        reveal_strlit("4");
        reveal_strlit("5");
        reveal_strlit("6");
        reveal_strlit("7");
        reveal_strlit("8");
        reveal_strlit("9");
    }
    let r = if d == 0 {
        "0"
    } else if d == 1 {
        "1"
    } else if d == 2 {
        "2"
    } else if d == 3 {
        "3"
    } else if d == 4 {
        "4"
    } else if d == 5 {
        "5"
    } else if d == 6 {
        "6"
    } else if d == 7 {
        "7"
    } else if d == 8 {
        "8"
    } else {
        "9"
    };
    proof {
        assert(r@ =~= seq![spec_digit(d as nat)]);
    }
    r
}

/// The decimal numeral of a number, without leading zeros.
pub fn decimal(n: usize) -> (r: String)
    ensures
        r@ == spec_decimal(n as nat),
    decreases n,
{
    if n < 10 {
        String::from_str(digit(n))
    } else {
        let mut r = decimal(n / 10);
        r.append(digit(n % 10));
        proof {
            assert(r@ =~= spec_decimal((n / 10) as nat).push(spec_digit((n % 10) as nat)));
        }
        r
    }
}

/// What a name is given to.
#[derive(Clone, Copy, Debug, PartialEq, Eq, Structural)]
pub enum Declared {
    Prop,
    Func,
}

/// The forms in which the name of a property or a method is kept as a constant: the
/// primary name and the alternate name, each as a string and as its code units.
#[derive(Clone, Copy, Debug, PartialEq, Eq, Structural)]
pub enum NameForm {
    Name,
    NameRu,
    NameSlice,
    NameRuSlice,
}

/// The word that the name of a constant begins with.
pub open spec fn spec_const_prefix(declared: Declared, form: NameForm) -> Seq<char> {
    match (declared, form) {
        (Declared::Prop, NameForm::Name) => "ADDIN_PROP_NAME_"@,
        (Declared::Prop, NameForm::NameSlice) => "ADDIN_PROP_NAME_"@,
        (Declared::Prop, NameForm::NameRu) => "ADDIN_PROP_NAME_RU_"@,
        (Declared::Prop, NameForm::NameRuSlice) => "ADDIN_PROP_NAME_RU_"@,
        (Declared::Func, NameForm::Name) => "ADDIN_FUNC_NAME_"@,
        (Declared::Func, NameForm::NameSlice) => "ADDIN_FUNC_NAME_"@,
        (Declared::Func, NameForm::NameRu) => "ADDIN_FUNC_NAME_RU_"@,
        (Declared::Func, NameForm::NameRuSlice) => "ADDIN_FUNC_NAME_RU_"@,
    }
}

/// The word that the name of a constant ends with.
pub open spec fn spec_const_suffix(form: NameForm) -> Seq<char> {
    match form {
        NameForm::Name => ""@,
        NameForm::NameRu => ""@,
        NameForm::NameSlice => "_SLICE"@,
        NameForm::NameRuSlice => "_SLICE"@,
    }
}

/// The name of the constant that keeps a name of the property or method at `index`.
pub open spec fn spec_const_name(declared: Declared, form: NameForm, index: usize) -> Seq<char> {
    spec_const_prefix(declared, form) + spec_decimal((index + 1) as nat) + spec_const_suffix(form)
}

/// The name of the constant that keeps a name of the property or method at `index`.
pub fn const_name(declared: Declared, form: NameForm, index: usize) -> (r: String)
    requires
        index < usize::MAX,
    ensures
        r@ == spec_const_name(declared, form, index),
{
    let prefix = match declared {
        Declared::Prop => match form {
            NameForm::Name => "ADDIN_PROP_NAME_",
            NameForm::NameSlice => "ADDIN_PROP_NAME_",
            NameForm::NameRu => "ADDIN_PROP_NAME_RU_",
            NameForm::NameRuSlice => "ADDIN_PROP_NAME_RU_",
        },
        Declared::Func => match form {
            NameForm::Name => "ADDIN_FUNC_NAME_",
            NameForm::NameSlice => "ADDIN_FUNC_NAME_",
            NameForm::NameRu => "ADDIN_FUNC_NAME_RU_",
            NameForm::NameRuSlice => "ADDIN_FUNC_NAME_RU_",
        },
    };
    let suffix = match form {
        NameForm::Name => "",
        NameForm::NameRu => "",
        NameForm::NameSlice => "_SLICE",
        NameForm::NameRuSlice => "_SLICE",
    };
    let mut r = String::from_str(prefix);
    let number = decimal(index + 1);
    r.append(number.as_str());
    r.append(suffix);
    r
}

/// The name of the variable that holds the parameter at `index` for the call.
pub open spec fn spec_param_name(index: usize) -> Seq<char> {
    "param_"@ + spec_decimal((index + 1) as nat)
}

/// The name of the variable that holds the value of the parameter at `index` where the
/// declared function may change it.
pub open spec fn spec_param_val_name(index: usize) -> Seq<char> {
    "param_val_"@ + spec_decimal((index + 1) as nat)
}

/// The name of the variable that holds the parameter at `index` for the call.
pub fn param_name(index: usize) -> (r: String)
    requires
        index < usize::MAX,
    ensures
        r@ == spec_param_name(index),
{
    let mut r = String::from_str("param_");
    let number = decimal(index + 1);
    r.append(number.as_str());
    r
}

/// The name of the variable that holds the value of the parameter at `index` where the
/// declared function may change it.
pub fn param_val_name(index: usize) -> (r: String)
    requires
        index < usize::MAX,
    ensures
        r@ == spec_param_val_name(index),
{
    let mut r = String::from_str("param_val_");
    let number = decimal(index + 1);
    r.append(number.as_str());
    r
}

} // verus!
