use vstd::prelude::*;

verus! {

/// The two supported server software variants. Each one has its own metadata
/// endpoint shape and its own download URL template.
#[derive(Clone, Copy, PartialEq, Eq, Structural, Debug)]
pub enum Distribution {
    Paper,
    Purpur,
}

} // verus!
