//! Range classes.

use vstd::prelude::*;

verus! {

/// Firing range class of a ship or of a piece of equipment, from shortest to longest.
#[derive(Clone, Copy, Debug, PartialEq, Eq, Structural, PartialOrd, Ord, Hash)]
pub enum Range {
    NoRange,
    Short,
    Medium,
    Long,
    VeryLong,
    VeryVeryLong,
}

impl Range {
    /// Position of the class in the order `NoRange < Short < ... < VeryVeryLong`.
    pub open spec fn rank(self) -> nat {
        match self {
            Range::NoRange => 0,
            Range::Short => 1,
            Range::Medium => 2,
            Range::Long => 3,
            Range::VeryLong => 4,
            Range::VeryVeryLong => 5,
        }
    }

    /// Position of the class in the order of the classes, from 0 to 5.
    pub fn level(&self) -> (r: u8)
        ensures
            r == self.rank(),
    {
        match self {
            Range::NoRange => 0,
            Range::Short => 1,
            Range::Medium => 2,
            Range::Long => 3,
            Range::VeryLong => 4,
            Range::VeryVeryLong => 5,
        }
    }
}

impl Range {
    /// Name of the class.
    pub open spec fn spec_label(self) -> Seq<char> {
        match self {
            Range::NoRange => "None"@,
            Range::Short => "Short"@,
            Range::Medium => "Medium"@,
            Range::Long => "Long"@,
            Range::VeryLong => "Very Long"@,
            Range::VeryVeryLong => "Very Very Long"@,
        }
    }

    /// Name of the class, as it is shown.
    pub fn label(&self) -> (r: String)
        ensures
            r@ == self.spec_label(),
    {
        match self {
            Range::NoRange => "None".to_owned(),
            Range::Short => "Short".to_owned(),
            Range::Medium => "Medium".to_owned(),
            Range::Long => "Long".to_owned(),
            Range::VeryLong => "Very Long".to_owned(),
            Range::VeryVeryLong => "Very Very Long".to_owned(),
        }
    }

    /// The longer of two range classes.
    pub open spec fn longer(self, other: Range) -> Range {
        if self.rank() >= other.rank() {
            self
        } else {
            other
        }
    }

    /// The longer of two range classes.
    pub fn max_of(self, other: Range) -> (r: Range)
        ensures
            r == self.longer(other),
    {
        if self.level() >= other.level() {
            self
        } else {
            other
        }
    }
}

impl Default for Range {
    fn default() -> (r: Self)
        ensures
            r == Range::NoRange,
    {
        Range::NoRange
    }
}

} // verus!
