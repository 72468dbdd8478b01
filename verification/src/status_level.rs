//! The severity shown by a status icon.

use vstd::prelude::*;

verus! {

/// The severity of a status, as the status icons display it.
#[derive(Clone, Copy, Debug, PartialEq, Eq, Structural)]
pub enum StatusLevel {
    Good,
    Neutral,
    Warning,
    Error,
    Spinner,
}

/// The number a status level is stored as.
pub open spec fn level_number(l: StatusLevel) -> u8 {
    match l {
        StatusLevel::Good => 0,
        StatusLevel::Neutral => 1,
        StatusLevel::Warning => 2,
        StatusLevel::Error => 3,
        StatusLevel::Spinner => 4,
    }
}

/// The status level stored as `v`; unknown numbers read as neutral.
pub open spec fn level_from_number(v: u8) -> StatusLevel {
    if v == 0 {
        StatusLevel::Good
    } else if v == 1 {
        StatusLevel::Neutral
    } else if v == 2 {
        StatusLevel::Warning
    } else if v == 3 {
        StatusLevel::Error
    } else if v == 4 {
        StatusLevel::Spinner
    } else {
        StatusLevel::Neutral
    }
}

impl Default for StatusLevel {
    fn default() -> (l: Self)
        ensures
            l == StatusLevel::Neutral,
    {
        StatusLevel::Neutral
    }
}

impl From<u8> for StatusLevel {
    fn from(v: u8) -> (l: Self) {
        if v == 0 {
            StatusLevel::Good
        } else if v == 1 {
            StatusLevel::Neutral
        } else if v == 2 {
            StatusLevel::Warning
        } else if v == 3 {
            StatusLevel::Error
        } else if v == 4 {
            StatusLevel::Spinner
        } else {
            StatusLevel::Neutral
        }
    }
}

impl vstd::std_specs::convert::FromSpecImpl<u8> for StatusLevel {
    open spec fn obeys_from_spec() -> bool {
        true
    }

    open spec fn from_spec(v: u8) -> StatusLevel {
        level_from_number(v)
    }
}

impl From<StatusLevel> for u8 {
    fn from(v: StatusLevel) -> (n: u8) {
        match v {
            StatusLevel::Good => 0,
            StatusLevel::Neutral => 1,
            StatusLevel::Warning => 2,
            StatusLevel::Error => 3,
            StatusLevel::Spinner => 4,
        }
    }
}

impl vstd::std_specs::convert::FromSpecImpl<StatusLevel> for u8 {
    open spec fn obeys_from_spec() -> bool {
        true
    }

    open spec fn from_spec(v: StatusLevel) -> u8 {
        level_number(v)
    }
}

impl<'a> From<&'a StatusLevel> for u8 {
    fn from(v: &'a StatusLevel) -> (n: u8) {
        match *v {
            StatusLevel::Good => 0,
            StatusLevel::Neutral => 1,
            StatusLevel::Warning => 2,
            StatusLevel::Error => 3,
            StatusLevel::Spinner => 4,
        }
    }
}

impl<'a> vstd::std_specs::convert::FromSpecImpl<&'a StatusLevel> for u8 {
    open spec fn obeys_from_spec() -> bool {
        true
    }

    open spec fn from_spec(v: &'a StatusLevel) -> u8 {
        level_number(*v)
    }
}

/// A status level survives being stored as a number and read back.
pub proof fn lemma_level_number_roundtrip(l: StatusLevel)
    ensures
        level_from_number(level_number(l)) == l,
{
}

/// Reading a stored number and storing the level again gives the number back
/// exactly when the number is one that a level is stored as.
pub proof fn lemma_number_level_roundtrip(v: u8)
    ensures
        (level_number(level_from_number(v)) == v) <==> v <= 4,
{
}

} // verus!
