//! A labelled point in time.

use arrayvec::ArrayString;
use vstd::prelude::*;

use crate::time::DateTime;

verus! {

pub struct Task {
    description: ArrayString<16>,
    date: DateTime,
}

impl Task {
    pub closed spec fn spec_description(self) -> ArrayString<16> {
        self.description
    }

    pub closed spec fn spec_date(self) -> DateTime {
        self.date
    }

    pub fn description(&self) -> (r: ArrayString<16>)
        ensures
            r == self.spec_description(),
    {
        self.description
    }

    pub fn date(&self) -> (r: DateTime)
        ensures
            r == self.spec_date(),
    {
        self.date
    }

    pub fn new(description: ArrayString<16>, date: DateTime) -> (r: Self)
        ensures
            r.spec_description() == description,
            r.spec_date() == date,
    {
        Task { description, date }
    }
}

} // verus!
