//! A backend-agnostic database access layer: a typed model of SQL functions
//! that query builders compose and renderers switch over, and the rules by
//! which a pool manager produces healthy, session-configured connections.

pub mod ast;
pub mod error;
pub mod connector;
pub mod pool;
