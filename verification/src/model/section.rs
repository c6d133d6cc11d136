//! The summary-page section rule: show at most a cap, flag the overflow.
//!
//! gitweb's `git_summary` repeats one idiom for the shortlog, tags, heads and
//! forks sections: fetch one item more than it shows, show the first 16, and
//! link onward with "..." only when a seventeenth exists. [`Section`] is that
//! rule for any list and cap.

use vstd::prelude::*;

verus! {

/// `shown` and `truncated` are `full` limited to its first `cap` items, with
/// the flag set exactly when some were dropped.
pub open spec fn limited_from<T>(shown: Seq<T>, truncated: bool, full: Seq<T>, cap: nat) -> bool {
    &&& truncated == (full.len() > cap)
    &&& shown == if full.len() > cap {
        full.take(cap as int)
    } else {
        full
    }
}

/// A list trimmed to a display cap, remembering whether it overran.
#[derive(Debug, Clone, PartialEq, Eq)]
pub struct Section<T> {
    shown: Vec<T>,
    truncated: bool,
}

impl<T> Section<T> {
    /// The shown items (spec view).
    pub closed spec fn spec_shown(&self) -> Seq<T> {
        self.shown@
    }

    /// The overflow flag (spec view).
    pub closed spec fn spec_truncated(&self) -> bool {
        self.truncated
    }

    /// Limits `items` to the first `cap`, recording whether any were dropped.
    pub fn limited(items: Vec<T>, cap: usize) -> (r: Self)
        ensures
            r.spec_truncated() == (items@.len() > cap),
            r.spec_shown() == if items@.len() > cap {
                items@.take(cap as int)
            } else {
                items@
            },
            limited_from(r.spec_shown(), r.spec_truncated(), items@, cap as nat),
    {
        let mut items = items;
        let truncated: bool = items.len() > cap;
        items.truncate(cap);
        Section { shown: items, truncated }
    }

    /// The items to display: the first `cap` of the full list.
    pub fn shown(&self) -> (r: &[T])
        ensures
            r@ == self.spec_shown(),
    {
        self.shown.as_slice()
    }

    /// Whether the full list overran the cap — the "..." link.
    pub fn is_truncated(&self) -> (r: bool)
        ensures
            r == self.spec_truncated(),
    {
        self.truncated
    }
}

} // verus!
