use vstd::prelude::*;

verus! {

/// Says what happens with a value that lies outside of the interval that it is expected in.
#[derive(Clone, Copy, Debug, PartialEq, Eq)]
pub enum OutOfRangeBehavior {
    /// A value below the interval counts as the low bound, one above it as the high bound.
    MinOrMax,
    /// A value outside of the interval counts as the low bound.
    Min,
    /// A value outside of the interval is dropped.
    Ignore,
}

impl Default for OutOfRangeBehavior {
    fn default() -> (r: OutOfRangeBehavior)
        ensures
            r == OutOfRangeBehavior::MinOrMax,
    {
        OutOfRangeBehavior::MinOrMax
    }
}

/// Says how absolute control values are interpreted.
#[derive(Clone, Copy, Debug, PartialEq, Eq)]
pub enum AbsoluteMode {
    /// The value is a position that the target should take.
    Normal,
    /// The value is a button press that moves the target by some steps.
    IncrementalButtons,
    /// The value is a button press that switches the target between its two ends.
    ToggleButtons,
}

impl Default for AbsoluteMode {
    fn default() -> (r: AbsoluteMode)
        ensures
            r == AbsoluteMode::Normal,
    {
        AbsoluteMode::Normal
    }
}

impl AbsoluteMode {
    /// The number that stands for this mode where modes are stored as numbers.
    pub open spec fn index(self) -> int {
        match self {
            AbsoluteMode::Normal => 0,
            AbsoluteMode::IncrementalButtons => 1,
            AbsoluteMode::ToggleButtons => 2,
        }
    }

    /// Returns the number that stands for this mode.
    pub fn to_index(self) -> (r: usize)
        ensures
            r == self.index(),
    {
        match self {
            AbsoluteMode::Normal => 0,
            AbsoluteMode::IncrementalButtons => 1,
            AbsoluteMode::ToggleButtons => 2,
        }
    }

    /// Returns the mode that the given number stands for, if it stands for one.
    pub fn from_index(index: usize) -> (r: Option<AbsoluteMode>)
        ensures
            index <= 2 <==> r is Some,
            r matches Some(mode) ==> mode.index() == index,
    {
        if index == 0 {
            Some(AbsoluteMode::Normal)
        } else if index == 1 {
            Some(AbsoluteMode::IncrementalButtons)
        } else if index == 2 {
            Some(AbsoluteMode::ToggleButtons)
        } else {
            None
        }
    }

    /// Returns the name of this mode as it is shown to a user.
    pub fn label(&self) -> (r: &'static str)
        ensures
            r@ == (match *self {
                AbsoluteMode::Normal => "Normal"@,
                AbsoluteMode::IncrementalButtons => "Incremental buttons"@,
                AbsoluteMode::ToggleButtons => "Toggle buttons"@,
            }),
    {
        match self {
            AbsoluteMode::Normal => "Normal",
            AbsoluteMode::IncrementalButtons => "Incremental buttons",
            AbsoluteMode::ToggleButtons => "Toggle buttons",
        }
    }
}

} // verus!
