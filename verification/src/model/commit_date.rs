//! The date cell of a commit row: gitweb's two-week age/date swap.
//!
//! gitweb's `parse_commit` shows a commit younger than two weeks by its age in
//! words (`age_string`) with the calendar date as the hover text, and an older
//! one the other way round (`age_string_date` / `age_string_age`).

use vstd::prelude::*;

use crate::model::age::{age_text, Age};
use crate::model::timestamp::{civil_of, date_form, Timestamp};

verus! {

/// The age past which the cell shows the date rather than the age.
pub const TWO_WEEKS: i64 = 1209600;

/// A commit's date cell.
#[derive(Debug, Clone, PartialEq, Eq)]
pub struct CommitDate {
    age: Age,
    date: String,
}

/// A date cell seen as the commit's age in seconds and its UTC date.
pub struct CommitDateView {
    pub age: i64,
    pub date: Seq<char>,
}

impl View for CommitDate {
    type V = CommitDateView;

    closed spec fn view(&self) -> CommitDateView {
        CommitDateView { age: self.age.spec_seconds(), date: self.date@ }
    }
}

/// The cell of a commit at `epoch` seen at `now`.
pub open spec fn commit_date_of(epoch: i64, now: i64) -> CommitDateView {
    CommitDateView { age: (now - epoch) as i64, date: date_form(civil_of(epoch as int)) }
}

/// The text the cell shows: the age in words up to two weeks, the date after.
pub open spec fn shown_text(v: CommitDateView) -> Seq<char> {
    if v.age > TWO_WEEKS {
        v.date
    } else {
        age_text(v.age as int)
    }
}

/// The hover text of the cell: whichever of age and date is not shown.
pub open spec fn hover_text(v: CommitDateView) -> Seq<char> {
    if v.age > TWO_WEEKS {
        age_text(v.age as int)
    } else {
        v.date
    }
}

impl CommitDate {
    /// The cell of a commit made at `epoch`, seen at request time `now`.
    pub fn new(epoch: i64, now: i64) -> (r: CommitDate)
        requires
            i64::MIN <= now - epoch <= i64::MAX,
        ensures
            r@ == commit_date_of(epoch, now),
    {
        let stamp: Timestamp = Timestamp::from_epoch(epoch);
        CommitDate { age: Age::from_seconds(now - epoch), date: stamp.utc_date() }
    }

    /// The commit's age.
    pub fn age(&self) -> (r: Age)
        ensures
            r.spec_seconds() == self@.age,
    {
        self.age
    }

    /// The commit's UTC calendar date, `YYYY-MM-DD`.
    pub fn date(&self) -> (r: &str)
        ensures
            r@ == self@.date,
    {
        self.date.as_str()
    }

    /// Whether the cell shows the date (the commit is older than two weeks).
    pub fn shows_date(&self) -> (r: bool)
        ensures
            r == (self@.age > TWO_WEEKS),
    {
        self.age.seconds() > TWO_WEEKS
    }

    /// The text the cell shows (see [`shown_text`]).
    pub fn shown(&self) -> (r: String)
        ensures
            r@ == shown_text(self@),
    {
        if self.age.seconds() > TWO_WEEKS {
            self.date.clone()
        } else {
            self.age.humanized()
        }
    }

    /// The hover text of the cell (see [`hover_text`]).
    pub fn hover(&self) -> (r: String)
        ensures
            r@ == hover_text(self@),
    {
        if self.age.seconds() > TWO_WEEKS {
            self.age.humanized()
        } else {
            self.date.clone()
        }
    }
}

} // verus!
