use vstd::prelude::*;

verus! {

/// Arguments of the command that reports on devices.
#[derive(Debug)]
pub struct DevicesArgs {
    pub actions: Actions,
}

#[derive(Clone, Copy, Debug, PartialEq, Eq, Structural)]
pub enum Actions {
    /// List every device as last seen.
    List,
}

} // verus!
