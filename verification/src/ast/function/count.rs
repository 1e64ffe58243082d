use crate::ast::DatabaseValue;
use vstd::prelude::*;

verus! {

/// The number of rows for which an expression has a value.
#[derive(Debug, PartialEq)]
pub struct Count<'a> {
    /// The expression that is counted.
    pub expr: Box<DatabaseValue<'a>>,
    /// Whether equal values count once.
    pub distinct: bool,
    /// The condition a row must meet to be counted, if there is one.
    pub filter: Option<Box<DatabaseValue<'a>>>,
}

impl<'a> Clone for Count<'a> {
    fn clone(&self) -> (copy: Self)
        ensures
            copy == *self,
        decreases self,
    {
        Count {
            expr: Box::new((&*self.expr).clone()),
            distinct: self.distinct,
            filter: match &self.filter {
                Some(condition) => Some(Box::new((&**condition).clone())),
                None => None,
            },
        }
    }
}

} // verus!
