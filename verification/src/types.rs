//! Small types shared by the operations.
use vstd::prelude::*;

verus! {

/// Turn a feature on or off.
#[derive(Clone, Copy, Debug, PartialEq, Eq, Structural)]
pub enum Control {
    /// Enable.
    On,
    /// Disable.
    Off,
}

/// What an operation refuses.
#[derive(Clone, Copy, Debug, PartialEq, Eq, Structural)]
pub enum Error {
    /// An argument, or a value read from the clock, is out of range.
    InvalidInputData,
}

/// Day of the week, as the clock numbers them from 0 (Sunday) to 6 (Saturday).
#[derive(Clone, Copy, Debug, PartialEq, Eq, Structural)]
pub enum Weekday {
    Sunday,
    Monday,
    Tuesday,
    Wednesday,
    Thursday,
    Friday,
    Saturday,
}

/// The weekday with the given number, if it is one.
pub open spec fn weekday_from(value: u8) -> Option<Weekday> {
    if value == 0 {
        Some(Weekday::Sunday)
    } else if value == 1 {
        Some(Weekday::Monday)
    } else if value == 2 {
        Some(Weekday::Tuesday)
    } else if value == 3 {
        Some(Weekday::Wednesday)
    } else if value == 4 {
        Some(Weekday::Thursday)
    } else if value == 5 {
        Some(Weekday::Friday)
    } else if value == 6 {
        Some(Weekday::Saturday)
    } else {
        None
    }
}

impl Weekday {
    /// The number of the weekday, 0 for Sunday up to 6 for Saturday.
    pub open spec fn number(self) -> u8 {
        match self {
            Weekday::Sunday => 0,
            Weekday::Monday => 1,
            Weekday::Tuesday => 2,
            Weekday::Wednesday => 3,
            Weekday::Thursday => 4,
            Weekday::Friday => 5,
            Weekday::Saturday => 6,
        }
    }

    /// The number of the weekday as the clock stores it.
    pub fn value(&self) -> (r: u8)
        ensures
            r == self.number(),
            r <= 6,
    {
        match self {
            Weekday::Sunday => 0,
            Weekday::Monday => 1,
            Weekday::Tuesday => 2,
            Weekday::Wednesday => 3,
            Weekday::Thursday => 4,
            Weekday::Friday => 5,
            Weekday::Saturday => 6,
        }
    }

    /// The weekday numbered `value`; values above 6 are refused.
    pub fn try_from(value: u8) -> (r: Result<Weekday, Error>)
        ensures
            match weekday_from(value) {
                Some(w) => r == Ok::<Weekday, Error>(w),
                None => r == Err::<Weekday, Error>(Error::InvalidInputData),
            },
            r is Ok <==> value <= 6,
    {
        match value {
            0 => Ok(Weekday::Sunday),
            1 => Ok(Weekday::Monday),
            2 => Ok(Weekday::Tuesday),
            3 => Ok(Weekday::Wednesday),
            4 => Ok(Weekday::Thursday),
            5 => Ok(Weekday::Friday),
            6 => Ok(Weekday::Saturday),
            _ => Err(Error::InvalidInputData),
        }
    }

    /// A weekday's number converts back to the same weekday.
    pub proof fn lemma_number_round_trip(self)
        ensures
            weekday_from(self.number()) == Some(self),
    {
    }
}

} // verus!
