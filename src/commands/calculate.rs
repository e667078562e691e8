use vstd::prelude::*;

verus! {

/// Arguments of the command that derives values from stored workouts.
#[derive(Debug)]
pub struct CalculateArgs {
    pub actions: Actions,
}

#[derive(Clone, Copy, Debug, PartialEq, Eq, Structural)]
pub enum Actions {
    /// Estimate the perceived exertion of workouts that have none.
    RPE,
}

} // verus!
