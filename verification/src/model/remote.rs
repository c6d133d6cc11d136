//! A configured git remote and the URL lines its remotes-view block shows.
//!
//! gitweb's `git_get_remotes_list` (a remote's name and the fetch/push URLs
//! `git remote -v` reports) and the URL-table rule inside `git_remote_block`:
//! fetch and push equal collapse to one combined row, distinct ones get a row
//! each, a single set URL is that one row, and neither is the "No remote URL"
//! placeholder. The labels belong to the render layer; this entity owns the
//! rule.

use vstd::prelude::*;
use crate::error::opt_view;
use crate::text::str_eq;

verus! {

/// One row of a remote's URL block, the shape gitweb's `git_remote_block`
/// chooses before `format_repo_url` labels it.
#[derive(Debug, Clone, PartialEq, Eq)]
pub enum RemoteUrl {
    /// Fetch and push are the same URL — gitweb's single "URL" row.
    Combined(String),
    /// The fetch URL, shown distinctly — gitweb's "Fetch URL" row.
    Fetch(String),
    /// The push URL, shown distinctly — gitweb's "Push URL" row.
    Push(String),
    /// No URL is configured — gitweb's "No remote URL" placeholder.
    Missing,
}

/// A [`RemoteUrl`] seen as its kind and text.
pub enum UrlLine {
    Combined(Seq<char>),
    Fetch(Seq<char>),
    Push(Seq<char>),
    Missing,
}

impl View for RemoteUrl {
    type V = UrlLine;

    open spec fn view(&self) -> UrlLine {
        match self {
            RemoteUrl::Combined(s) => UrlLine::Combined(s@),
            RemoteUrl::Fetch(s) => UrlLine::Fetch(s@),
            RemoteUrl::Push(s) => UrlLine::Push(s@),
            RemoteUrl::Missing => UrlLine::Missing,
        }
    }
}

/// The URL lines for a remote with these fetch and push URLs — gitweb's
/// `git_remote_block` rule.
pub open spec fn url_lines_for(fetch: Option<Seq<char>>, push: Option<Seq<char>>) -> Seq<UrlLine> {
    match (fetch, push) {
        (Some(f), Some(p)) => if f == p {
            seq![UrlLine::Combined(f)]
        } else {
            seq![UrlLine::Fetch(f), UrlLine::Push(p)]
        },
        (Some(f), None) => seq![UrlLine::Fetch(f)],
        (None, Some(p)) => seq![UrlLine::Push(p)],
        (None, None) => seq![UrlLine::Missing],
    }
}

/// The views of a list of URL rows.
pub open spec fn url_views(v: Seq<RemoteUrl>) -> Seq<UrlLine> {
    v.map_values(|u: RemoteUrl| u@)
}

/// A configured git remote: its name and the fetch/push URLs `git remote -v`
/// reports. Either URL may be absent.
#[derive(Debug, Clone, PartialEq, Eq)]
pub struct Remote {
    name: String,
    fetch_url: Option<String>,
    push_url: Option<String>,
}

impl Remote {
    /// The remote's name (spec view).
    pub closed spec fn spec_name(&self) -> Seq<char> {
        self.name@
    }

    /// The fetch URL (spec view).
    pub closed spec fn spec_fetch(&self) -> Option<Seq<char>> {
        opt_view(self.fetch_url)
    }

    /// The push URL (spec view).
    pub closed spec fn spec_push(&self) -> Option<Seq<char>> {
        opt_view(self.push_url)
    }

    /// A remote from its name and optional fetch and push URLs.
    pub fn new(name: String, fetch_url: Option<String>, push_url: Option<String>) -> (r: Self)
        ensures
            r.spec_name() == name@,
            r.spec_fetch() == opt_view(fetch_url),
            r.spec_push() == opt_view(push_url),
    {
        Remote { name, fetch_url, push_url }
    }

    /// The remote's name (`origin`, `upstream`, …).
    pub fn name(&self) -> (r: &str)
        ensures
            r@ == self.spec_name(),
    {
        self.name.as_str()
    }

    /// The fetch URL, if one is configured.
    pub fn fetch_url(&self) -> (r: Option<&str>)
        ensures
            r matches Some(s) ==> self.spec_fetch() == Some(s@),
            r is None ==> self.spec_fetch() is None,
    {
        match &self.fetch_url {
            Some(s) => Some(s.as_str()),
            None => None,
        }
    }

    /// The push URL, if one is configured.
    pub fn push_url(&self) -> (r: Option<&str>)
        ensures
            r matches Some(s) ==> self.spec_push() == Some(s@),
            r is None ==> self.spec_push() is None,
    {
        match &self.push_url {
            Some(s) => Some(s.as_str()),
            None => None,
        }
    }

    /// The URL lines this remote's block shows (see [`url_lines_for`]).
    pub fn url_lines(&self) -> (r: Vec<RemoteUrl>)
        ensures
            url_views(r@) == url_lines_for(self.spec_fetch(), self.spec_push()),
    {
        let r: Vec<RemoteUrl> = match (&self.fetch_url, &self.push_url) {
            (Some(fetch), Some(push)) => {
                if str_eq(fetch.as_str(), push.as_str()) {
                    vec![RemoteUrl::Combined(fetch.clone())]
                } else {
                    vec![RemoteUrl::Fetch(fetch.clone()), RemoteUrl::Push(push.clone())]
                }
            },
            (Some(fetch), None) => vec![RemoteUrl::Fetch(fetch.clone())],
            (None, Some(push)) => vec![RemoteUrl::Push(push.clone())],
            (None, None) => vec![RemoteUrl::Missing],
        };
        assert(url_views(r@) =~= url_lines_for(self.spec_fetch(), self.spec_push()));
        r
    }
}

} // verus!
