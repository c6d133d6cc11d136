//! The `summary` use case: gitweb's `git_summary`, minus the HTML.
//!
//! The landing page: a metadata block (description, owner, last change of
//! HEAD, clone URLs), the optional raw `README.html`, then the recent
//! shortlog, the tags and the heads, each capped at gitweb's 16 with a "..."
//! link when it overran. `omit_owner` hides the owner and `prevent_xss` the
//! README. An unborn repository has no last change and an empty shortlog.

use vstd::prelude::*;

use crate::error::DomainError;
use crate::model::commit::Commit;
use crate::model::project_info::{ProjectInfo, ProjectInfoView};
use crate::model::section::{limited_from, Section};
use crate::model::settings::{texts, Settings, SettingsView};
use crate::model::timestamp::{Timestamp, TimestampView};
use crate::port::repository::{Page, Repository};
use crate::text::{chars_of, push_str, string_of};
use crate::usecase::heads::{assemble_heads, head_row_views, lists_heads, HeadRow};
use crate::usecase::shortlog::{assemble_shortlog, ShortlogView};
use crate::usecase::tags::{assemble_tags, lists_tags, tag_row_views, TagRow};

verus! {

/// gitweb's summary section cap.
pub const SUMMARY_LIMIT: usize = 16;

/// The description shown when none is configured.
pub const NO_DESCRIPTION: &'static str = "none";

/// The assembled summary page.
pub struct SummaryView {
    description: String,
    owner: Option<String>,
    last_change: Option<Timestamp>,
    clone_urls: Vec<String>,
    readme: Option<String>,
    shortlog: ShortlogView,
    tags: Section<TagRow>,
    heads: Section<HeadRow>,
}

impl SummaryView {
    /// The shown description.
    pub closed spec fn spec_description(&self) -> Seq<char> {
        self.description@
    }

    /// The shown owner.
    pub closed spec fn spec_owner(&self) -> Option<Seq<char>> {
        match self.owner {
            Some(s) => Some(s@),
            None => None,
        }
    }

    /// The last change.
    pub closed spec fn spec_last_change(&self) -> Option<TimestampView> {
        match self.last_change {
            Some(t) => Some(t@),
            None => None,
        }
    }

    /// The clone URLs.
    pub closed spec fn spec_clone_urls(&self) -> Seq<Seq<char>> {
        texts(self.clone_urls@)
    }

    /// The included README.
    pub closed spec fn spec_readme(&self) -> Option<Seq<char>> {
        match self.readme {
            Some(s) => Some(s@),
            None => None,
        }
    }

    /// The shortlog section.
    pub closed spec fn spec_shortlog(&self) -> ShortlogView {
        self.shortlog
    }

    /// The tags section.
    pub closed spec fn spec_tags(&self) -> Section<TagRow> {
        self.tags
    }

    /// The heads section.
    pub closed spec fn spec_heads(&self) -> Section<HeadRow> {
        self.heads
    }

    /// The description, or `none` when the project has none.
    pub fn description(&self) -> (r: &str)
        ensures
            r@ == self.spec_description(),
    {
        self.description.as_str()
    }

    /// The owner, unless hidden or unset.
    pub fn owner(&self) -> (r: Option<&str>)
        ensures
            match self.spec_owner() {
                Some(s) => r matches Some(x) && x@ == s,
                None => r is None,
            },
    {
        match &self.owner {
            Some(s) => Some(s.as_str()),
            None => None,
        }
    }

    /// The committer time of HEAD's commit, absent for an unborn repository.
    pub fn last_change(&self) -> (r: Option<&Timestamp>)
        ensures
            match self.spec_last_change() {
                Some(t) => r matches Some(x) && x@ == t,
                None => r is None,
            },
    {
        match &self.last_change {
            Some(t) => Some(t),
            None => None,
        }
    }

    /// The clone URLs shown in the metadata block.
    pub fn clone_urls(&self) -> (r: &[String])
        ensures
            texts(r@) == self.spec_clone_urls(),
    {
        self.clone_urls.as_slice()
    }

    /// The raw README, when present and not suppressed.
    pub fn readme(&self) -> (r: Option<&str>)
        ensures
            match self.spec_readme() {
                Some(s) => r matches Some(x) && x@ == s,
                None => r is None,
            },
    {
        match &self.readme {
            Some(s) => Some(s.as_str()),
            None => None,
        }
    }

    /// The recent shortlog.
    pub fn shortlog(&self) -> (r: &ShortlogView)
        ensures
            *r == self.spec_shortlog(),
    {
        &self.shortlog
    }

    /// The tags section.
    pub fn tags(&self) -> (r: &Section<TagRow>)
        ensures
            *r == self.spec_tags(),
    {
        &self.tags
    }

    /// The heads section.
    pub fn heads(&self) -> (r: &Section<HeadRow>)
        ensures
            *r == self.spec_heads(),
    {
        &self.heads
    }
}

/// The shown description: the configured one when non-empty, else `none`.
pub open spec fn described_of(info: ProjectInfoView) -> Seq<char> {
    match info.description {
        Some(t) => if t.len() > 0 {
            t
        } else {
            NO_DESCRIPTION@
        },
        None => NO_DESCRIPTION@,
    }
}

/// The shown description (see [`described_of`]).
pub fn described(info: &ProjectInfo) -> (r: String)
    ensures
        r@ == described_of(info@),
{
    match info.description() {
        Some(text) => if !text.is_empty() {
            text.to_owned()
        } else {
            NO_DESCRIPTION.to_owned()
        },
        None => NO_DESCRIPTION.to_owned(),
    }
}

/// The shown owner: none under `omit_owner`, else the configured non-empty
/// owner.
pub open spec fn shown_owner_of(info: ProjectInfoView, settings: SettingsView) -> Option<Seq<char>> {
    if settings.omit_owner {
        None
    } else {
        match info.owner {
            Some(o) => if o.len() > 0 {
                Some(o)
            } else {
                None
            },
            None => None,
        }
    }
}

/// The shown owner (see [`shown_owner_of`]).
pub fn shown_owner(info: &ProjectInfo, settings: &Settings) -> (r: Option<String>)
    ensures
        match shown_owner_of(info@, settings@) {
            Some(s) => r matches Some(x) && x@ == s,
            None => r is None,
        },
{
    if settings.omit_owner() {
        return None;
    }
    match info.owner() {
        Some(o) => if !o.is_empty() {
            Some(o.to_owned())
        } else {
            None
        },
        None => None,
    }
}

/// The non-empty texts of `v`, in order.
pub open spec fn nonempty_texts(v: Seq<Seq<char>>) -> Seq<Seq<char>>
    decreases v.len(),
{
    if v.len() == 0 {
        v
    } else if v.last().len() > 0 {
        nonempty_texts(v.drop_last()).push(v.last())
    } else {
        nonempty_texts(v.drop_last())
    }
}

/// The clone URLs gitweb shows: the project's own non-empty ones, or else
/// each `@git_base_url_list` entry followed by `/` and the project path.
pub open spec fn clone_urls_of(info: ProjectInfoView, settings: SettingsView) -> Seq<Seq<char>> {
    let own = nonempty_texts(info.clone_urls);
    if own.len() > 0 {
        own
    } else {
        settings.git_base_url_list.map_values(|b: Seq<char>| b + "/"@ + info.name)
    }
}

/// The clone URLs (see [`clone_urls_of`]).
pub fn clone_urls(info: &ProjectInfo, settings: &Settings) -> (r: Vec<String>)
    ensures
        texts(r@) == clone_urls_of(info@, settings@),
{
    let urls: &[String] = info.clone_urls();
    let mut own: Vec<String> = Vec::new();
    let mut i: usize = 0;
    while i < urls.len()
        invariant
            0 <= i <= urls@.len(),
            texts(urls@) == info@.clone_urls,
            texts(own@) == nonempty_texts(texts(urls@).take(i as int)),
        decreases urls.len() - i,
    {
        let ghost before = texts(own@);
        assert(texts(urls@).take(i + 1).drop_last() =~= texts(urls@).take(i as int));
        assert(texts(urls@).take(i + 1).last() == urls@[i as int]@);
        if !urls[i].as_str().is_empty() {
            own.push(urls[i].clone());
            assert(texts(own@) =~= before.push(urls@[i as int]@));
        }
        i += 1;
    }
    assert(texts(urls@).take(urls@.len() as int) =~= texts(urls@));
    if own.len() > 0 {
        return own;
    }
    let bases: &[String] = settings.git_base_url_list();
    let mut out: Vec<String> = Vec::new();
    let mut j: usize = 0;
    while j < bases.len()
        invariant
            0 <= j <= bases@.len(),
            texts(bases@) == settings@.git_base_url_list,
            texts(out@) =~= texts(bases@).take(j as int).map_values(|b: Seq<char>| b + "/"@ + info@.name),
        decreases bases.len() - j,
    {
        let mut url: Vec<char> = chars_of(bases[j].as_str());
        push_str(&mut url, "/");
        push_str(&mut url, info.name());
        let ghost before = texts(out@);
        let s: String = string_of(url.as_slice());
        out.push(s);
        assert(texts(out@) =~= before.push(s@));
        j += 1;
    }
    assert(texts(bases@).take(bases@.len() as int) =~= texts(bases@));
    out
}

/// The README to include: none under `prevent_xss`.
pub fn included_readme(readme: Option<&str>, settings: &Settings) -> (r: Option<String>)
    ensures
        settings@.prevent_xss ==> r is None,
        !settings@.prevent_xss ==> match readme {
            Some(s) => r matches Some(x) && x@ == s@,
            None => r is None,
        },
{
    if settings.prevent_xss() {
        return None;
    }
    match readme {
        Some(s) => Some(s.to_owned()),
        None => None,
    }
}

/// HEAD's commit, or `None` for an unborn repository (the port answers
/// `NotFound` for HEAD).
pub fn head_commit<R: Repository>(repo: &R) -> (r: Result<Option<Commit>, DomainError>) {
    match repo.head() {
        Ok(reference) => match repo.find_commit(reference.target()) {
            Ok(c) => Ok(Some(c)),
            Err(e) => Err(e),
        },
        Err(DomainError::NotFound(_)) => Ok(None),
        Err(other) => Err(other),
    }
}

/// Assembles the summary page over the [`Repository`] port from the
/// project's metadata, its README, and the site settings, with ages at `now`.
pub fn assemble_summary<R: Repository>(
    repo: &R,
    info: &ProjectInfo,
    readme: Option<&str>,
    settings: &Settings,
    now: i64,
) -> (r: Result<SummaryView, DomainError>)
    ensures
        r matches Ok(v) ==> {
            &&& v.spec_description() == described_of(info@)
            &&& v.spec_owner() == shown_owner_of(info@, settings@)
            &&& v.spec_clone_urls() == clone_urls_of(info@, settings@)
            &&& (settings@.prevent_xss ==> v.spec_readme() is None)
            &&& (!settings@.prevent_xss ==> v.spec_readme() == match readme {
                Some(s) => Some(s@),
                None => None::<Seq<char>>,
            })
            &&& v.spec_tags().spec_shown().len() <= SUMMARY_LIMIT
            &&& v.spec_heads().spec_shown().len() <= SUMMARY_LIMIT
            &&& exists|full: Seq<TagRow>|
                #[trigger] limited_from(v.spec_tags().spec_shown(), v.spec_tags().spec_truncated(), full, SUMMARY_LIMIT as nat)
                    && lists_tags(tag_row_views(full), now)
            &&& exists|full: Seq<HeadRow>|
                #[trigger] limited_from(v.spec_heads().spec_shown(), v.spec_heads().spec_truncated(), full, SUMMARY_LIMIT as nat)
                    && lists_heads(head_row_views(full), now)
        },
{
    let last_change: Option<Timestamp> = match head_commit(repo) {
        Ok(Some(c)) => {
            match crate::model::timestamp::check_commit_time(c.committer()) {
                Ok(()) => {},
                Err(e) => return Err(e),
            }
            Some(Timestamp::from_signature(c.committer()))
        },
        Ok(None) => None,
        Err(e) => return Err(e),
    };
    let shortlog: ShortlogView = match assemble_shortlog(repo, None, now, Page::new(0, SUMMARY_LIMIT)) {
        Ok(s) => s,
        Err(e) => return Err(e),
    };
    let tag_rows: Vec<TagRow> = match assemble_tags(repo, now) {
        Ok(t) => t.into_rows(),
        Err(e) => return Err(e),
    };
    let ghost all_tags = tag_rows@;
    let tags: Section<TagRow> = Section::limited(tag_rows, SUMMARY_LIMIT);
    let head_rows: Vec<HeadRow> = match assemble_heads(repo, now, &["heads"]) {
        Ok(h) => h.into_rows(),
        Err(e) => return Err(e),
    };
    let ghost all_heads = head_rows@;
    let heads: Section<HeadRow> = Section::limited(head_rows, SUMMARY_LIMIT);
    assert(limited_from(tags.spec_shown(), tags.spec_truncated(), all_tags, SUMMARY_LIMIT as nat));
    assert(limited_from(heads.spec_shown(), heads.spec_truncated(), all_heads, SUMMARY_LIMIT as nat));
    let view = SummaryView {
        description: described(info),
        owner: shown_owner(info, settings),
        last_change,
        clone_urls: clone_urls(info, settings),
        readme: included_readme(readme, settings),
        shortlog,
        tags,
        heads,
    };
    assert(view.spec_tags() == tags && view.spec_heads() == heads);
    Ok(view)
}

} // verus!
