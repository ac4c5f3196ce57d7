use vstd::prelude::*;

verus! {

/// A rectangular region in a pane grid used to display widgets.
#[derive(Debug, Clone, Copy, PartialEq, Eq, Structural, PartialOrd, Ord, Hash)]
pub struct Pane(pub usize);

} // verus!
