//! Violations of input rules. The input layer reports them as a tree that
//! follows the shape of the input; callers are shown a flat list, each
//! violation with the path of the field it was found at.

use crate::error::{violations, Error, ErrorView, ValidationError, ValidationErrorView};
use crate::model::{copy_text_opt, text_opt};
use vstd::prelude::*;

verus! {

/// One violated rule, as it is found at a field.
#[derive(Debug, PartialEq, Eq)]
pub struct Violation {
    pub code: String,
    pub message: Option<String>,
}

/// What was found at one field: violations of the field itself, or the
/// findings within a nested value or within the items of a list.
#[derive(Debug, PartialEq, Eq)]
pub enum ValidationErrorsKind {
    Struct(Box<ValidationErrors>),
    List(Vec<(usize, ValidationErrors)>),
    Field(Vec<Violation>),
}

/// The findings of one validated value, by field, in the order in which they
/// were reported.
#[derive(Debug, PartialEq, Eq)]
pub struct ValidationErrors {
    pub errors: Vec<(String, ValidationErrorsKind)>,
}

/// A number in decimal digits.
pub open spec fn decimal(n: nat) -> Seq<char>
    decreases n,
{
    if n < 10 {
        digit(n)
    } else {
        decimal(n / 10) + digit(n % 10)
    }
}

/// One decimal digit as text.
pub open spec fn digit(d: nat) -> Seq<char> {
    if d == 0 {
        "0"@
    } else if d == 1 {
        "1"@
    } else if d == 2 {
        "2"@
    } else if d == 3 {
        "3"@
    } else if d == 4 {
        "4"@
    } else if d == 5 {
        "5"@
    } else if d == 6 {
        "6"@
    } else if d == 7 {
        "7"@
    } else if d == 8 {
        "8"@
    } else {
        "9"@
    }
}

/// The path of a field within the value found at `prefix`.
pub open spec fn field_path(prefix: Seq<char>, name: Seq<char>) -> Seq<char> {
    if prefix.len() == 0 {
        name
    } else {
        prefix + "."@ + name
    }
}

/// The path of an item within the list found at `path`.
pub open spec fn item_path(path: Seq<char>, index: usize) -> Seq<char> {
    path + "["@ + decimal(index as nat) + "]"@
}

/// A violation with the path of the field it was found at.
pub open spec fn found_at(v: Violation, path: Seq<char>) -> ValidationErrorView {
    ValidationErrorView { field: path, code: v.code@, message: text_opt(v.message) }
}

/// The first `n` violations found at one field, each with the field's path.
pub open spec fn leaves(vs: Seq<Violation>, path: Seq<char>, n: nat) -> Seq<ValidationErrorView>
    decreases n,
{
    if n == 0 || n > vs.len() {
        Seq::empty()
    } else {
        leaves(vs, path, (n - 1) as nat).push(found_at(vs[n - 1], path))
    }
}

/// Every violation within the findings, depth first and in the order of
/// the report, each with its path from `prefix`.
pub open spec fn flat(errs: ValidationErrors, prefix: Seq<char>) -> Seq<ValidationErrorView>
    decreases errs, 1nat, 0nat,
{
    flat_fields(errs, prefix, errs.errors@.len())
}

/// The violations within the first `n` fields.
pub open spec fn flat_fields(errs: ValidationErrors, prefix: Seq<char>, n: nat) -> Seq<
    ValidationErrorView,
>
    decreases errs, 0nat, n,
{
    if n == 0 || n > errs.errors@.len() {
        Seq::empty()
    } else {
        let (name, kind) = errs.errors@[n - 1];
        flat_fields(errs, prefix, (n - 1) as nat) + (match kind {
            ValidationErrorsKind::Struct(inner) => flat(*inner, field_path(prefix, name@)),
            ValidationErrorsKind::List(items) => flat_items(
                items,
                field_path(prefix, name@),
                items@.len(),
            ),
            ValidationErrorsKind::Field(vs) => leaves(vs@, field_path(prefix, name@), vs@.len()),
        })
    }
}

/// The violations within the first `n` items of a list.
pub open spec fn flat_items(items: Vec<(usize, ValidationErrors)>, path: Seq<char>, n: nat) -> Seq<
    ValidationErrorView,
>
    decreases items, 0nat, n,
{
    if n == 0 || n > items@.len() {
        Seq::empty()
    } else {
        flat_items(items, path, (n - 1) as nat) + flat(
            items@[n - 1].1,
            item_path(path, items@[n - 1].0),
        )
    }
}

fn digit_text(d: usize) -> (r: &'static str)
    requires
        d < 10,
    ensures
        r@ == digit(d as nat),
{
    if d == 0 {
        "0"
    } else if d == 1 {
        "1"
    } else if d == 2 {
        "2"
    } else if d == 3 {
        "3"
    } else if d == 4 {
        "4"
    } else if d == 5 {
        "5"
    } else if d == 6 {
        "6"
    } else if d == 7 {
        "7"
    } else if d == 8 {
        "8"
    } else {
        "9"
    }
}

fn decimal_text(n: usize) -> (r: String)
    ensures
        r@ == decimal(n as nat),
    decreases n,
{
    if n < 10 {
        String::from_str(digit_text(n))
    } else {
        decimal_text(n / 10).concat(digit_text(n % 10))
    }
}

fn field_path_of(prefix: &String, name: &String) -> (r: String)
    ensures
        r@ == field_path(prefix@, name@),
{
    if prefix.as_str().is_empty() {
        name.clone()
    } else {
        prefix.clone().concat(".").concat(name.as_str())
    }
}

fn item_path_of(path: &String, index: usize) -> (r: String)
    ensures
        r@ == item_path(path@, index),
{
    let digits = decimal_text(index);
    path.clone().concat("[").concat(digits.as_str()).concat("]")
}

fn push_leaves(vs: &Vec<Violation>, path: &String, buff: &mut Vec<ValidationError>)
    ensures
        violations(final(buff)@) == violations(old(buff)@) + leaves(vs@, path@, vs@.len()),
{
    let ghost before = violations(buff@);
    let mut i: usize = 0;
    while i < vs.len()
        invariant
            i <= vs.len(),
            violations(buff@) == before + leaves(vs@, path@, i as nat),
        decreases vs.len() - i,
    {
        let ghost was = violations(buff@);
        let e = ValidationError {
            field: path.clone(),
            code: vs[i].code.clone(),
            message: copy_text_opt(&vs[i].message),
        };
        buff.push(e);
        proof {
            assert(violations(buff@) =~= was.push(found_at(vs@[i as int], path@)));
            assert(before + leaves(vs@, path@, (i + 1) as nat) =~= (before + leaves(
                vs@,
                path@,
                i as nat,
            )).push(found_at(vs@[i as int], path@)));
        }
        i = i + 1;
    }
}

fn push_items(items: &Vec<(usize, ValidationErrors)>, path: &String, buff: &mut Vec<ValidationError>)
    ensures
        violations(final(buff)@) == violations(old(buff)@) + flat_items(
            *items,
            path@,
            items@.len(),
        ),
    decreases items, 0nat,
{
    let ghost before = violations(buff@);
    let mut i: usize = 0;
    while i < items.len()
        invariant
            i <= items.len(),
            violations(buff@) == before + flat_items(*items, path@, i as nat),
        decreases items.len() - i,
    {
        let ghost was = violations(buff@);
        let at = item_path_of(path, items[i].0);
        nest_validation_errors(&items[i].1, &at, buff);
        proof {
            assert(before + flat_items(*items, path@, (i + 1) as nat) =~= was + flat(
                items@[i as int].1,
                item_path(path@, items@[i as int].0),
            ));
        }
        i = i + 1;
    }
}

/// Nests validation errors to one list: appends to `buff` every violation
/// within `errs`, depth first and in the order of the report, each with its
/// path from `prefix`.
pub fn nest_validation_errors(errs: &ValidationErrors, prefix: &String, buff: &mut Vec<ValidationError>)
    ensures
        violations(final(buff)@) == violations(old(buff)@) + flat(*errs, prefix@),
    decreases errs, 1nat,
{
    let ghost before = violations(buff@);
    let mut i: usize = 0;
    while i < errs.errors.len()
        invariant
            i <= errs.errors.len(),
            violations(buff@) == before + flat_fields(*errs, prefix@, i as nat),
        decreases errs.errors.len() - i,
    {
        let ghost was = violations(buff@);
        let path = field_path_of(prefix, &errs.errors[i].0);
        match &errs.errors[i].1 {
            ValidationErrorsKind::Struct(inner) => {
                nest_validation_errors(inner, &path, buff);
            },
            ValidationErrorsKind::List(items) => {
                push_items(items, &path, buff);
            },
            ValidationErrorsKind::Field(vs) => {
                push_leaves(vs, &path, buff);
            },
        }
        proof {
            let (name, kind) = errs.errors@[i as int];
            let found = match kind {
                ValidationErrorsKind::Struct(inner) => flat(*inner, field_path(prefix@, name@)),
                ValidationErrorsKind::List(items) => flat_items(
                    items,
                    field_path(prefix@, name@),
                    items@.len(),
                ),
                ValidationErrorsKind::Field(vs) => leaves(
                    vs@,
                    field_path(prefix@, name@),
                    vs@.len(),
                ),
            };
            assert(violations(buff@) == was + found);
            assert(before + flat_fields(*errs, prefix@, (i + 1) as nat) =~= was + found);
        }
        i = i + 1;
    }
}

/// The failure that a validation report stands for: its violations as one
/// flat list.
pub fn validation_error(errs: &ValidationErrors) -> (r: Error)
    ensures
        r@ == ErrorView::Validation(flat(*errs, Seq::empty())),
{
    let mut errors: Vec<ValidationError> = Vec::new();
    let root = String::new();
    nest_validation_errors(errs, &root, &mut errors);
    proof {
        assert(violations(errors@) =~= flat(*errs, Seq::empty()));
    }
    Error::Validation(errors)
}

impl From<ValidationErrors> for Error {
    /// The failure that a validation report stands for: its violations as
    /// one flat list.
    fn from(errs: ValidationErrors) -> (r: Error)
        ensures
            r@ == ErrorView::Validation(flat(errs, Seq::empty())),
    {
        validation_error(&errs)
    }
}

impl vstd::std_specs::convert::FromSpecImpl<ValidationErrors> for Error {
    /// The flat list is made anew, so no value can be named that `from`
    /// returns; what it returns is stated on `from` itself, by its view.
    open spec fn obeys_from_spec() -> bool {
        false
    }

    open spec fn from_spec(errs: ValidationErrors) -> Error {
        Error::Empty
    }
}

} // verus!
