use crate::ast::{clone_text, DatabaseValue};
use std::borrow::Cow;
use vstd::prelude::*;

verus! {

/// The conversion of a value to another type: `CAST(value AS target)`.
#[derive(Debug, PartialEq)]
pub struct Cast<'a> {
    /// The value being cast.
    pub value: Box<DatabaseValue<'a>>,
    /// The name of the type it is cast to.
    pub target: Cow<'a, str>,
}

impl<'a> Clone for Cast<'a> {
    fn clone(&self) -> (copy: Self)
        ensures
            copy == *self,
        decreases self,
    {
        Cast { value: Box::new((&*self.value).clone()), target: clone_text(&self.target) }
    }
}

} // verus!
