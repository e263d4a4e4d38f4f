//! The kind of operation a caller is performing.
//!
//! The core holds no ambient per-process state: callers construct whatever
//! cross-cutting context they need (actor identity, tracing metadata) and
//! pass it down explicitly. The operation kind is the part of that context
//! the core's collaborators branch on.

use vstd::prelude::*;

verus! {

/// What kind of operation a context was created for.
#[derive(Clone, Copy, Debug, PartialEq, Eq, Structural)]
pub enum OpKind {
    /// Handling an external API request.
    ExternalApiRequest,
    /// Background operations.
    Background,
    /// Automated unit tests.
    UnitTest,
}

} // verus!
