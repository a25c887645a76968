//! Options of a query that plugins and host exchange.
use vstd::prelude::*;

verus! {

/// The kind of consolidation applied to the replies of a query.
#[derive(Debug, Clone, PartialEq, Eq, Copy, Structural)]
pub enum ConsolidationMode {
    /// No consolidation: several samples may arrive for one key and
    /// timestamp.
    NoConsolidation,
    /// Samples are forwarded at once, except those for whose key a sample of
    /// an equal or later timestamp was forwarded before. Nothing is
    /// reordered; late samples are dropped.
    Monotonic,
    /// Samples are held back, and only the one of the latest timestamp is
    /// forwarded for each key.
    Latest,
}

/// The queryables that a query is addressed to.
#[derive(Debug, Clone, Copy, PartialEq, Eq, Structural)]
pub enum QueryTarget {
    BestMatching,
    All,
    AllComplete,
}

impl Default for QueryTarget {
    fn default() -> (r: Self)
        ensures
            r == QueryTarget::BestMatching,
    {
        QueryTarget::BestMatching
    }
}

} // verus!
