use vstd::prelude::*;

verus! {

/// Arguments of the command that reports on the files and the store.
#[derive(Clone, Copy, Debug, PartialEq, Eq, Structural)]
pub struct InfoArgs {}

} // verus!
