//! The display metadata of one project: gitweb's `git_get_project_*` family
//! (description, owner, category) and its configured clone URLs.

use vstd::prelude::*;

use crate::error::opt_view;
use crate::model::settings::texts;

verus! {

/// One project's display metadata.
#[derive(Debug, Clone, PartialEq, Eq)]
pub struct ProjectInfo {
    name: String,
    description: Option<String>,
    owner: Option<String>,
    category: Option<String>,
    clone_urls: Vec<String>,
    last_activity: Option<i64>,
}

/// [`ProjectInfo`] seen through its texts.
pub struct ProjectInfoView {
    pub name: Seq<char>,
    pub description: Option<Seq<char>>,
    pub owner: Option<Seq<char>>,
    pub category: Option<Seq<char>>,
    pub clone_urls: Seq<Seq<char>>,
    pub last_activity: Option<i64>,
}

impl View for ProjectInfo {
    type V = ProjectInfoView;

    closed spec fn view(&self) -> ProjectInfoView {
        ProjectInfoView {
            name: self.name@,
            description: opt_view(self.description),
            owner: opt_view(self.owner),
            category: opt_view(self.category),
            clone_urls: texts(self.clone_urls@),
            last_activity: self.last_activity,
        }
    }
}

/// The optional borrowed text of an optional owned one.
fn opt_str(o: &Option<String>) -> (r: Option<&str>)
    ensures
        match opt_view(*o) {
            Some(s) => r matches Some(x) && x@ == s,
            None => r is None,
        },
{
    match o {
        Some(s) => Some(s.as_str()),
        None => None,
    }
}

impl ProjectInfo {
    /// The metadata of project `name`.
    pub fn new(
        name: String,
        description: Option<String>,
        owner: Option<String>,
        category: Option<String>,
        clone_urls: Vec<String>,
        last_activity: Option<i64>,
    ) -> (r: ProjectInfo)
        ensures
            r@ == (ProjectInfoView {
                name: name@,
                description: opt_view(description),
                owner: opt_view(owner),
                category: opt_view(category),
                clone_urls: texts(clone_urls@),
                last_activity,
            }),
    {
        ProjectInfo { name, description, owner, category, clone_urls, last_activity }
    }

    /// The project's path under the project root.
    pub fn name(&self) -> (r: &str)
        ensures
            r@ == self@.name,
    {
        self.name.as_str()
    }

    /// The description, when one is configured.
    pub fn description(&self) -> (r: Option<&str>)
        ensures
            match self@.description {
                Some(s) => r matches Some(x) && x@ == s,
                None => r is None,
            },
    {
        opt_str(&self.description)
    }

    /// The owner, when one is configured.
    pub fn owner(&self) -> (r: Option<&str>)
        ensures
            match self@.owner {
                Some(s) => r matches Some(x) && x@ == s,
                None => r is None,
            },
    {
        opt_str(&self.owner)
    }

    /// The category, when one is configured.
    pub fn category(&self) -> (r: Option<&str>)
        ensures
            match self@.category {
                Some(s) => r matches Some(x) && x@ == s,
                None => r is None,
            },
    {
        opt_str(&self.category)
    }

    /// The epoch of the project's last change (gitweb's
    /// `git_get_last_activity`), when it has one.
    pub fn last_activity(&self) -> (r: Option<i64>)
        ensures
            r == self@.last_activity,
    {
        self.last_activity
    }

    /// The project's own clone URLs (`cloneurl` file or `gitweb.url`).
    pub fn clone_urls(&self) -> (r: &[String])
        ensures
            texts(r@) == self@.clone_urls,
    {
        self.clone_urls.as_slice()
    }
}

} // verus!
