use vstd::prelude::*;

verus! {

/// A divider that splits a region in a pane grid into two different panes.
#[derive(Debug, Clone, Copy, PartialEq, Eq, Structural, PartialOrd, Ord, Hash)]
pub struct Split(pub usize);

} // verus!
