//! Connection managers: what a bounded pool holds to make, check and discard
//! connections.

use vstd::prelude::*;

pub mod postgres;

verus! {

/// A fixed specification for making connections to one backend. It is never
/// changed once built, and it is no connection itself.
pub struct PrismaConnectionManager<Inner> {
    /// The driver's own manager.
    pub inner: Inner,
    /// The file that holds the database, for a backend that lives in one.
    pub file_path: Option<String>,
    /// The schema each session is pointed at; `None` for the default.
    pub schema: Option<String>,
}

} // verus!
