//! Response type of `GET /api/cluster-name`.
use vstd::prelude::*;

verus! {

/// Wire shape of `GET /api/cluster-name`: `{ "name": ... }`. The client
/// unwraps it and returns the plain name.
#[derive(Debug, Clone)]
pub struct ClusterName {
    /// The cluster's name (typically the name of the first node, e.g.
    /// `"rabbit@host"`).
    pub name: String,
}

} // verus!
