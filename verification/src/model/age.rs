//! Relative ages — gitweb's `age_string`.

use vstd::prelude::*;
use crate::text::{decimal, decimal_chars, push_str, string_of};

verus! {

/// An elapsed time in seconds (request time minus event time).
#[derive(Debug, Clone, Copy, PartialEq, Eq, Structural)]
pub struct Age {
    seconds: i64,
}

/// gitweb's `age_string`: years beyond two years, months beyond two months,
/// weeks beyond two weeks, days beyond two days, hours beyond two hours,
/// minutes beyond two minutes, seconds beyond two seconds, else "right now"
/// (each count truncated).
pub open spec fn age_text(age: int) -> Seq<char> {
    if age > 63072000 {
        decimal((age / 31536000) as nat) + " years ago"@
    } else if age > 5256000 {
        decimal((age / 2628000) as nat) + " months ago"@
    } else if age > 1209600 {
        decimal((age / 604800) as nat) + " weeks ago"@
    } else if age > 172800 {
        decimal((age / 86400) as nat) + " days ago"@
    } else if age > 7200 {
        decimal((age / 3600) as nat) + " hours ago"@
    } else if age > 120 {
        decimal((age / 60) as nat) + " min ago"@
    } else if age > 2 {
        decimal(age as nat) + " sec ago"@
    } else {
        "right now"@
    }
}

fn count_text(n: i64, unit: &str) -> (r: String)
    requires
        n >= 0,
    ensures
        r@ == decimal(n as nat) + unit@,
{
    let mut out: Vec<char> = decimal_chars(n as u128);
    push_str(&mut out, unit);
    string_of(out.as_slice())
}

impl Age {
    /// The elapsed seconds.
    pub closed spec fn spec_seconds(&self) -> i64 {
        self.seconds
    }

    /// An age of `seconds`.
    pub fn from_seconds(seconds: i64) -> (r: Age)
        ensures
            r.spec_seconds() == seconds,
    {
        Age { seconds }
    }

    /// The elapsed seconds.
    pub fn seconds(&self) -> (r: i64)
        ensures
            r == self.spec_seconds(),
    {
        self.seconds
    }

    /// The age in words (see [`age_text`]).
    pub fn humanized(&self) -> (r: String)
        ensures
            r@ == age_text(self.spec_seconds() as int),
    {
        let age: i64 = self.seconds;
        if age > 63072000 {
            count_text(age / 31536000, " years ago")
        } else if age > 5256000 {
            count_text(age / 2628000, " months ago")
        } else if age > 1209600 {
            count_text(age / 604800, " weeks ago")
        } else if age > 172800 {
            count_text(age / 86400, " days ago")
        } else if age > 7200 {
            count_text(age / 3600, " hours ago")
        } else if age > 120 {
            count_text(age / 60, " min ago")
        } else if age > 2 {
            count_text(age, " sec ago")
        } else {
            "right now".to_owned()
        }
    }
}

} // verus!
