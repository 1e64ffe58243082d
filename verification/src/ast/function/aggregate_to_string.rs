use crate::ast::DatabaseValue;
use vstd::prelude::*;

verus! {

/// The values of a group, joined into one string.
#[derive(Debug, PartialEq)]
pub struct AggregateToString<'a> {
    /// The expression whose values are joined.
    pub value: Box<DatabaseValue<'a>>,
}

impl<'a> Clone for AggregateToString<'a> {
    fn clone(&self) -> (copy: Self)
        ensures
            copy == *self,
        decreases self,
    {
        AggregateToString { value: Box::new((&*self.value).clone()) }
    }
}

} // verus!
