use crate::ast::clone_text;
use std::borrow::Cow;
use vstd::prelude::*;

verus! {

/// The direction in which rows are ordered.
#[derive(Debug, Clone, Copy, PartialEq, Eq)]
pub enum Order {
    Asc,
    Desc,
}

/// The number of a row within its window: `ROW_NUMBER() OVER (..)`.
#[derive(Debug, PartialEq)]
pub struct RowNumber<'a> {
    /// The column whose values split the rows into windows, if any.
    pub partitioning: Option<Cow<'a, str>>,
    /// The column by which the rows of a window are ordered, if any, and the
    /// direction.
    pub ordering: Option<(Cow<'a, str>, Order)>,
}

impl<'a> Clone for RowNumber<'a> {
    fn clone(&self) -> (copy: Self)
        ensures
            copy == *self,
    {
        RowNumber {
            partitioning: match &self.partitioning {
                Some(column) => Some(clone_text(column)),
                None => None,
            },
            ordering: match &self.ordering {
                Some((column, order)) => Some((clone_text(column), *order)),
                None => None,
            },
        }
    }
}

} // verus!
