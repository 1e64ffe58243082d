//! SQL functions, and the alias a query may bind their result to.

use super::{clone_text, text_of, DatabaseValue};
use std::borrow::Cow;
use vstd::prelude::*;
use vstd::std_specs::convert::FromSpec;

mod aggregate_to_string;
mod cast;
mod count;
mod row_number;

pub use aggregate_to_string::AggregateToString;
pub use cast::Cast;
pub use count::Count;
pub use row_number::{Order, RowNumber};

verus! {

/// A database function definition.
#[derive(Debug, PartialEq)]
pub struct Function<'a> {
    pub typ_: FunctionType<'a>,
    pub alias: Option<Cow<'a, str>>,
}

/// A database function type.
#[derive(Debug, PartialEq)]
pub enum FunctionType<'a> {
    RowNumber(RowNumber<'a>),
    Cast(Cast<'a>),
    Count(Count<'a>),
    AggregateToString(AggregateToString<'a>),
}

/// What stands between a rendered function and its alias.
pub open spec fn alias_keyword() -> Seq<char> {
    seq![' ', 'A', 'S', ' ']
}

impl<'a> Clone for FunctionType<'a> {
    fn clone(&self) -> (copy: Self)
        ensures
            copy == *self,
        decreases self,
    {
        match self {
            FunctionType::RowNumber(f) => FunctionType::RowNumber(f.clone()),
            FunctionType::Cast(f) => FunctionType::Cast(f.clone()),
            FunctionType::Count(f) => FunctionType::Count(f.clone()),
            FunctionType::AggregateToString(f) => FunctionType::AggregateToString(f.clone()),
        }
    }
}

impl<'a> Clone for Function<'a> {
    fn clone(&self) -> (copy: Self)
        ensures
            copy == *self,
        decreases self,
    {
        Function {
            typ_: self.typ_.clone(),
            alias: match &self.alias {
                Some(name) => Some(clone_text(name)),
                None => None,
            },
        }
    }
}

impl<'a> Function<'a> {
    /// The function of the given type, without an alias.
    pub open spec fn bare(typ_: FunctionType<'a>) -> Self {
        Function { typ_, alias: None }
    }

    /// The same function under the given alias, whatever its alias was.
    pub open spec fn with_alias(self, name: Cow<'a, str>) -> Self {
        Function { typ_: self.typ_, alias: Some(name) }
    }

    /// What the function renders as, once a dialect has rendered the function
    /// itself as `expr`: the bare expression without an alias, and
    /// `expr AS alias` with one.
    pub open spec fn rendered(self, expr: Seq<char>) -> Seq<char> {
        match self.alias {
            Some(name) => expr + alias_keyword() + name@,
            None => expr,
        }
    }

    /// Give the function an alias in the query.
    ///
    /// The alias is what `alias` converts into; an earlier alias is replaced.
    pub fn alias<S>(self, alias: S) -> (aliased: Self) where S: Into<Cow<'a, str>>
        ensures
            aliased.alias matches Some(name) && call_ensures(
                <S as Into<Cow<'a, str>>>::into,
                (alias,),
                name,
            ) && aliased == self.with_alias(name),
    {
        let mut this = self;
        this.alias = Some(alias.into());
        this
    }

    /// Finishes the rendering of the function: `expr` is the text that a
    /// dialect's renderer produced for the function itself, and the alias
    /// clause, if there is one, is put behind it.
    pub fn render(&self, expr: &str) -> (sql: String)
        ensures
            sql@ == self.rendered(expr@),
    {
        let mut sql = String::from_str(expr);
        match &self.alias {
            Some(name) => {
                proof {
                    reveal_strlit(" AS ");
                    assert(" AS "@ =~= alias_keyword());
                }
                sql.append(" AS ");
                sql.append(text_of(name));
            },
            None => {},
        }
        sql
    }
}

impl<'a> From<RowNumber<'a>> for Function<'a> {
    fn from(f: RowNumber<'a>) -> (function: Self) {
        Function { typ_: FunctionType::RowNumber(f), alias: None }
    }
}

impl<'a> vstd::std_specs::convert::FromSpecImpl<RowNumber<'a>> for Function<'a> {
    open spec fn obeys_from_spec() -> bool {
        true
    }

    open spec fn from_spec(f: RowNumber<'a>) -> Self {
        Function::bare(FunctionType::RowNumber(f))
    }
}

impl<'a> From<RowNumber<'a>> for DatabaseValue<'a> {
    fn from(f: RowNumber<'a>) -> (value: Self) {
        DatabaseValue::from(Function::from(f))
    }
}

impl<'a> vstd::std_specs::convert::FromSpecImpl<RowNumber<'a>> for DatabaseValue<'a> {
    open spec fn obeys_from_spec() -> bool {
        true
    }

    open spec fn from_spec(f: RowNumber<'a>) -> Self {
        DatabaseValue::Function(Function::bare(FunctionType::RowNumber(f)))
    }
}

impl<'a> From<Cast<'a>> for Function<'a> {
    fn from(f: Cast<'a>) -> (function: Self) {
        Function { typ_: FunctionType::Cast(f), alias: None }
    }
}

impl<'a> vstd::std_specs::convert::FromSpecImpl<Cast<'a>> for Function<'a> {
    open spec fn obeys_from_spec() -> bool {
        true
    }

    open spec fn from_spec(f: Cast<'a>) -> Self {
        Function::bare(FunctionType::Cast(f))
    }
}

impl<'a> From<Cast<'a>> for DatabaseValue<'a> {
    fn from(f: Cast<'a>) -> (value: Self) {
        DatabaseValue::from(Function::from(f))
    }
}

impl<'a> vstd::std_specs::convert::FromSpecImpl<Cast<'a>> for DatabaseValue<'a> {
    open spec fn obeys_from_spec() -> bool {
        true
    }

    open spec fn from_spec(f: Cast<'a>) -> Self {
        DatabaseValue::Function(Function::bare(FunctionType::Cast(f)))
    }
}

impl<'a> From<Count<'a>> for Function<'a> {
    fn from(f: Count<'a>) -> (function: Self) {
        Function { typ_: FunctionType::Count(f), alias: None }
    }
}

impl<'a> vstd::std_specs::convert::FromSpecImpl<Count<'a>> for Function<'a> {
    open spec fn obeys_from_spec() -> bool {
        true
    }

    open spec fn from_spec(f: Count<'a>) -> Self {
        Function::bare(FunctionType::Count(f))
    }
}

impl<'a> From<Count<'a>> for DatabaseValue<'a> {
    fn from(f: Count<'a>) -> (value: Self) {
        DatabaseValue::from(Function::from(f))
    }
}

impl<'a> vstd::std_specs::convert::FromSpecImpl<Count<'a>> for DatabaseValue<'a> {
    open spec fn obeys_from_spec() -> bool {
        true
    }

    open spec fn from_spec(f: Count<'a>) -> Self {
        DatabaseValue::Function(Function::bare(FunctionType::Count(f)))
    }
}

impl<'a> From<AggregateToString<'a>> for Function<'a> {
    fn from(f: AggregateToString<'a>) -> (function: Self) {
        Function { typ_: FunctionType::AggregateToString(f), alias: None }
    }
}

impl<'a> vstd::std_specs::convert::FromSpecImpl<AggregateToString<'a>> for Function<'a> {
    open spec fn obeys_from_spec() -> bool {
        true
    }

    open spec fn from_spec(f: AggregateToString<'a>) -> Self {
        Function::bare(FunctionType::AggregateToString(f))
    }
}

impl<'a> From<AggregateToString<'a>> for DatabaseValue<'a> {
    fn from(f: AggregateToString<'a>) -> (value: Self) {
        DatabaseValue::from(Function::from(f))
    }
}

impl<'a> vstd::std_specs::convert::FromSpecImpl<AggregateToString<'a>> for DatabaseValue<'a> {
    open spec fn obeys_from_spec() -> bool {
        true
    }

    open spec fn from_spec(f: AggregateToString<'a>) -> Self {
        DatabaseValue::Function(Function::bare(FunctionType::AggregateToString(f)))
    }
}

impl<'a> Function<'a> {
    /// A function made from any kind renders as the bare expression: without
    /// an alias there is no alias clause.
    pub proof fn lemma_bare_rendering(
        row_number: RowNumber<'a>,
        cast: Cast<'a>,
        count: Count<'a>,
        aggregate: AggregateToString<'a>,
        expr: Seq<char>,
    )
        ensures
            Function::from_spec(row_number).rendered(expr) == expr,
            Function::from_spec(cast).rendered(expr) == expr,
            Function::from_spec(count).rendered(expr) == expr,
            Function::from_spec(aggregate).rendered(expr) == expr,
    {
    }

    /// Under an alias a function of any kind renders as the expression, then
    /// ` AS `, then the alias, and nothing behind it.
    pub proof fn lemma_aliased_rendering(self, name: Cow<'a, str>, expr: Seq<char>)
        ensures
            self.with_alias(name).rendered(expr) == expr + alias_keyword() + name@,
            self.with_alias(name).rendered(expr).len() == expr.len() + 4 + name@.len(),
            self.with_alias(name).typ_ == self.typ_,
    {
    }

    /// The last alias wins: aliasing twice is aliasing once, with the second
    /// name.
    pub proof fn lemma_last_alias_wins(self, first: Cow<'a, str>, second: Cow<'a, str>)
        ensures
            self.with_alias(first).with_alias(second) == self.with_alias(second),
    {
    }

    /// Nothing is lost on the way from a kind to the generic value: the value
    /// is the result of a function, that function has no alias, and its type
    /// holds the kind as it was given. Going by way of `Function` or directly
    /// makes no difference.
    pub proof fn lemma_conversion_is_lossless(
        row_number: RowNumber<'a>,
        cast: Cast<'a>,
        count: Count<'a>,
        aggregate: AggregateToString<'a>,
    )
        ensures
            DatabaseValue::from_spec(row_number).as_function() == Some(
                Function::bare(FunctionType::RowNumber(row_number)),
            ),
            DatabaseValue::from_spec(cast).as_function() == Some(
                Function::bare(FunctionType::Cast(cast)),
            ),
            DatabaseValue::from_spec(count).as_function() == Some(
                Function::bare(FunctionType::Count(count)),
            ),
            DatabaseValue::from_spec(aggregate).as_function() == Some(
                Function::bare(FunctionType::AggregateToString(aggregate)),
            ),
            DatabaseValue::from_spec(row_number) == DatabaseValue::from_spec(
                Function::from_spec(row_number),
            ),
            DatabaseValue::from_spec(cast) == DatabaseValue::from_spec(Function::from_spec(cast)),
            DatabaseValue::from_spec(count) == DatabaseValue::from_spec(Function::from_spec(count)),
            DatabaseValue::from_spec(aggregate) == DatabaseValue::from_spec(
                Function::from_spec(aggregate),
            ),
    {
    }
}

} // verus!
