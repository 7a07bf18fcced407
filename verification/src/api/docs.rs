use vstd::prelude::*;

verus! {

/// The marker type that the description of the interface hangs on.
#[derive(Debug, Clone, Copy, PartialEq, Eq)]
pub struct ApiDoc;

} // verus!
