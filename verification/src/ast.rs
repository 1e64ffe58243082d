//! The abstract query model: values and the functions applied to them.
//!
//! The model is plain data. Equality in contracts is structural: two values
//! are equal when they are built the same way from the same texts.

use std::borrow::Cow;
use vstd::prelude::*;

pub mod function;

pub use function::{AggregateToString, Cast, Count, Function, FunctionType, Order, RowNumber};

verus! {

/// A value that can stand wherever a query expects an expression.
#[derive(Debug, PartialEq)]
pub enum DatabaseValue<'a> {
    /// A text literal, bound as a parameter.
    Text(Cow<'a, str>),
    /// An integer literal, bound as a parameter.
    Integer(i64),
    /// A boolean literal, bound as a parameter.
    Boolean(bool),
    /// A column, by name.
    Column(Cow<'a, str>),
    /// Every column: `*`.
    Asterisk,
    /// The result of a function.
    Function(Function<'a>),
}

/// `std`'s conversion of a string slice into a `Cow`: the slice is borrowed,
/// not copied, so the `Cow` is the `Borrowed` variant and reads as the slice.
pub assume_specification<'a>[ <Cow<'a, str> as From<&'a str>>::from ](s: &'a str) -> (cow: Cow<
    'a,
    str,
>)
    ensures
        cow == Cow::<str>::Borrowed(s),
;

/// `std`'s conversion of a `String` into a `Cow`: the string is moved, not
/// copied, so the `Cow` is the `Owned` variant and holds that string.
pub assume_specification<'a>[ <Cow<'a, str> as From<String>>::from ](s: String) -> (cow: Cow<
    'a,
    str,
>)
    ensures
        cow == Cow::<str>::Owned(s),
;

/// `std`'s conversion of a value into its own type gives the value back: what
/// is already a `Cow` stays the `Cow` it is.
pub assume_specification<X>[ <X as From<X>>::from ](x: X) -> (same: X)
    ensures
        same == x,
;

/// A copy of a piece of text. Borrowed text stays borrowed.
pub(crate) fn clone_text<'a>(text: &Cow<'a, str>) -> (copy: Cow<'a, str>)
    ensures
        copy == *text,
{
    match text {
        Cow::Borrowed(s) => Cow::Borrowed(*s),
        Cow::Owned(s) => Cow::Owned(s.clone()),
    }
}

/// The text itself, whichever way it is held.
pub(crate) fn text_of<'b, 'a>(text: &'b Cow<'a, str>) -> (slice: &'b str)
    ensures
        slice@ == text@,
{
    match text {
        Cow::Borrowed(s) => *s,
        Cow::Owned(s) => s.as_str(),
    }
}

impl<'a> Clone for DatabaseValue<'a> {
    fn clone(&self) -> (copy: Self)
        ensures
            copy == *self,
        decreases self,
    {
        match self {
            DatabaseValue::Text(t) => DatabaseValue::Text(clone_text(t)),
            DatabaseValue::Integer(i) => DatabaseValue::Integer(*i),
            DatabaseValue::Boolean(b) => DatabaseValue::Boolean(*b),
            DatabaseValue::Column(c) => DatabaseValue::Column(clone_text(c)),
            DatabaseValue::Asterisk => DatabaseValue::Asterisk,
            DatabaseValue::Function(f) => DatabaseValue::Function(f.clone()),
        }
    }
}

impl<'a> DatabaseValue<'a> {
    /// The function that this value is the result of, if it is one.
    pub open spec fn as_function(self) -> Option<Function<'a>> {
        match self {
            DatabaseValue::Function(f) => Some(f),
            _ => None,
        }
    }

    /// Takes the function back out of a value that was made from one.
    pub fn into_function(self) -> (function: Option<Function<'a>>)
        ensures
            function == self.as_function(),
    {
        match self {
            DatabaseValue::Function(f) => Some(f),
            _ => None,
        }
    }
}

impl<'a> From<&'a str> for DatabaseValue<'a> {
    fn from(text: &'a str) -> (value: Self) {
        DatabaseValue::Text(Cow::from(text))
    }
}

impl<'a> vstd::std_specs::convert::FromSpecImpl<&'a str> for DatabaseValue<'a> {
    open spec fn obeys_from_spec() -> bool {
        true
    }

    open spec fn from_spec(text: &'a str) -> Self {
        DatabaseValue::Text(Cow::Borrowed(text))
    }
}

impl<'a> From<String> for DatabaseValue<'a> {
    fn from(text: String) -> (value: Self) {
        DatabaseValue::Text(Cow::from(text))
    }
}

impl<'a> vstd::std_specs::convert::FromSpecImpl<String> for DatabaseValue<'a> {
    open spec fn obeys_from_spec() -> bool {
        true
    }

    open spec fn from_spec(text: String) -> Self {
        DatabaseValue::Text(Cow::Owned(text))
    }
}

impl<'a> From<Cow<'a, str>> for DatabaseValue<'a> {
    fn from(text: Cow<'a, str>) -> (value: Self) {
        DatabaseValue::Text(Cow::from(text))
    }
}

impl<'a> vstd::std_specs::convert::FromSpecImpl<Cow<'a, str>> for DatabaseValue<'a> {
    open spec fn obeys_from_spec() -> bool {
        true
    }

    open spec fn from_spec(text: Cow<'a, str>) -> Self {
        DatabaseValue::Text(text)
    }
}

impl<'a> From<Function<'a>> for DatabaseValue<'a> {
    fn from(f: Function<'a>) -> (value: Self) {
        DatabaseValue::Function(f)
    }
}

impl<'a> vstd::std_specs::convert::FromSpecImpl<Function<'a>> for DatabaseValue<'a> {
    open spec fn obeys_from_spec() -> bool {
        true
    }

    open spec fn from_spec(f: Function<'a>) -> Self {
        DatabaseValue::Function(f)
    }
}

} // verus!
