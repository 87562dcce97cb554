//! The days of the week, and the five of them on which the conference runs.

use vstd::prelude::*;

verus! {

/// A day of the week.
#[derive(Clone, Copy, Debug, PartialEq, Eq, Structural)]
pub enum Weekday {
    Mon,
    Tue,
    Wed,
    Thu,
    Fri,
    Sat,
    Sun,
}

impl Weekday {
    /// The day after this one; after Sunday comes Monday.
    pub open spec fn spec_succ(self) -> Weekday {
        match self {
            Weekday::Mon => Weekday::Tue,
            Weekday::Tue => Weekday::Wed,
            Weekday::Wed => Weekday::Thu,
            Weekday::Thu => Weekday::Fri,
            Weekday::Fri => Weekday::Sat,
            Weekday::Sat => Weekday::Sun,
            Weekday::Sun => Weekday::Mon,
        }
    }

    /// The day before this one; before Monday comes Sunday.
    pub open spec fn spec_pred(self) -> Weekday {
        match self {
            Weekday::Mon => Weekday::Sun,
            Weekday::Tue => Weekday::Mon,
            Weekday::Wed => Weekday::Tue,
            Weekday::Thu => Weekday::Wed,
            Weekday::Fri => Weekday::Thu,
            Weekday::Sat => Weekday::Fri,
            Weekday::Sun => Weekday::Sat,
        }
    }

    /// How many days after Monday this day lies: 0 for Monday, 6 for Sunday.
    pub open spec fn days_from_monday(self) -> nat {
        match self {
            Weekday::Mon => 0,
            Weekday::Tue => 1,
            Weekday::Wed => 2,
            Weekday::Thu => 3,
            Weekday::Fri => 4,
            Weekday::Sat => 5,
            Weekday::Sun => 6,
        }
    }

    /// The conference runs from Monday to Friday.
    pub open spec fn is_conference_day(self) -> bool {
        self.days_from_monday() < 5
    }

    /// The conference day after this one, Monday following Friday.
    pub open spec fn next_conference_day(self) -> Weekday {
        if self == Weekday::Fri {
            Weekday::Mon
        } else {
            self.spec_succ()
        }
    }

    /// The conference day before this one, Friday preceding Monday.
    pub open spec fn previous_conference_day(self) -> Weekday {
        if self == Weekday::Mon {
            Weekday::Fri
        } else {
            self.spec_pred()
        }
    }

    /// The day after this one; after Sunday comes Monday.
    #[verifier::when_used_as_spec(spec_succ)]
    pub fn succ(self) -> (day: Weekday)
        ensures
            day == self.spec_succ(),
    {
        match self {
            Weekday::Mon => Weekday::Tue,
            Weekday::Tue => Weekday::Wed,
            Weekday::Wed => Weekday::Thu,
            Weekday::Thu => Weekday::Fri,
            Weekday::Fri => Weekday::Sat,
            Weekday::Sat => Weekday::Sun,
            Weekday::Sun => Weekday::Mon,
        }
    }

    /// The day before this one; before Monday comes Sunday.
    #[verifier::when_used_as_spec(spec_pred)]
    pub fn pred(self) -> (day: Weekday)
        ensures
            day == self.spec_pred(),
    {
        match self {
            Weekday::Mon => Weekday::Sun,
            Weekday::Tue => Weekday::Mon,
            Weekday::Wed => Weekday::Tue,
            Weekday::Thu => Weekday::Wed,
            Weekday::Fri => Weekday::Thu,
            Weekday::Sat => Weekday::Fri,
            Weekday::Sun => Weekday::Sat,
        }
    }

    /// How many days after Monday this day lies: 0 for Monday, 6 for Sunday.
    pub fn num_days_from_monday(self) -> (days: u32)
        ensures
            days == self.days_from_monday(),
    {
        match self {
            Weekday::Mon => 0,
            Weekday::Tue => 1,
            Weekday::Wed => 2,
            Weekday::Thu => 3,
            Weekday::Fri => 4,
            Weekday::Sat => 5,
            Weekday::Sun => 6,
        }
    }
}

} // verus!
