use vstd::prelude::*;

verus! {

/// Errors returned by graph operations.
#[derive(Debug, PartialEq, Eq)]
pub enum GraphError {
    /// An edge operation referenced a source node index that is not present
    /// in the graph.
    MissingNode,
}

} // verus!
