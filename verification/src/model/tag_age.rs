//! The three-state age of a tag ref on the tags listing.
//!
//! gitweb's `git_get_tags_list` records a creation time only when the ref's
//! object is a tag or a commit; `git_tags_body` then renders a recorded
//! non-zero time as the relative age, a recorded zero as "unknown", and no
//! recorded time (a lightweight tag of a blob or tree) as an empty cell.

use vstd::prelude::*;
use crate::model::age::Age;

verus! {

/// How a tag's creation age renders — gitweb's three states.
#[derive(Debug, Clone, Copy, PartialEq, Eq, Structural)]
pub enum TagAge {
    /// A recorded, non-zero creation time: its relative age.
    Known(Age),
    /// A recorded creation time of zero — gitweb's "unknown".
    Unknown,
    /// No recorded creation time — an empty cell.
    Absent,
}

impl TagAge {
    /// Classifies a tag's age from its recorded creation time against `now`.
    pub fn classify(creation: Option<i64>, now: i64) -> (r: Self)
        requires
            creation matches Some(e) ==> (e == 0 || i64::MIN <= now - e <= i64::MAX),
        ensures
            match creation {
                None => r == TagAge::Absent,
                Some(e) => if e == 0 {
                    r == TagAge::Unknown
                } else {
                    r matches TagAge::Known(a) && a.spec_seconds() == now - e
                },
            },
    {
        match creation {
            None => TagAge::Absent,
            Some(0) => TagAge::Unknown,
            Some(epoch) => TagAge::Known(Age::from_seconds(now - epoch)),
        }
    }
}

} // verus!
