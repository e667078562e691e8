use vstd::prelude::*;

verus! {

/// Arguments of the command that summarises a recent period.
#[derive(Debug)]
pub struct SummaryArgs {
    pub actions: Actions,
}

/// Options of a summary: the sports to keep, if any, and whether to list
/// each activity.
#[derive(Debug)]
pub struct SummarySubcommandArgs {
    pub activity: Option<Vec<String>>,
    pub list: bool,
}

#[derive(Debug)]
pub enum Actions {
    SevenDays(SummarySubcommandArgs),
    ThirtyDays(SummarySubcommandArgs),
    ThreeSixFiveDays(SummarySubcommandArgs),
}

impl Actions {
    /// The length of the period, in days.
    pub fn days(&self) -> (r: u16)
        ensures
            r == match self {
                Actions::SevenDays(_) => 7u16,
                Actions::ThirtyDays(_) => 30u16,
                Actions::ThreeSixFiveDays(_) => 365u16,
            },
    {
        match self {
            Actions::SevenDays(_) => 7,
            Actions::ThirtyDays(_) => 30,
            Actions::ThreeSixFiveDays(_) => 365,
        }
    }

    /// The options of the summary.
    pub fn options(&self) -> (r: &SummarySubcommandArgs)
        ensures
            r == match self {
                Actions::SevenDays(a) => a,
                Actions::ThirtyDays(a) => a,
                Actions::ThreeSixFiveDays(a) => a,
            },
    {
        match self {
            Actions::SevenDays(a) => a,
            Actions::ThirtyDays(a) => a,
            Actions::ThreeSixFiveDays(a) => a,
        }
    }
}

} // verus!
