//! Selector for the gRPC code-generation backend of the surrounding build
//! tooling. Generating service bindings is the build tool's work, done outside
//! the verified engine; the tooling only needs this marker type to name the
//! backend it should construct.

use vstd::prelude::*;

verus! {

/// Marker handed to the build tooling to request the gRPC backend.
#[derive(Clone, Copy, PartialEq, Eq, Structural, Debug)]
pub struct MkGrpcBackend;

} // verus!
