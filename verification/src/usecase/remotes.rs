//! The `remotes` use case: gitweb's `git_remotes`, minus the HTML.
//!
//! Each configured remote becomes a block of its URL lines and its
//! remote-tracking branches under `refs/remotes/<name>/`, enriched as the
//! heads listing enriches branches but shown without the `<name>/` prefix.
//! Without a selection every remote is shown (404 "No remotes found" when
//! there are none); with one, only that remote (404 when it is not
//! configured). The view is gated behind the `remote_heads` feature (403).

use vstd::prelude::*;

use crate::error::{DomainError, ErrorView};
use crate::model::object_id::ObjectId;
use crate::model::ref_name::short_name;
use crate::model::reference::Reference;
use crate::model::remote::{url_lines_for, url_views, Remote, RemoteUrl, UrlLine};
use crate::model::settings::{feature_enabled, feature_index, FeatureName, Settings};
use crate::port::repository::Repository;
use crate::text::{chars_of, has_prefix, push_str, starts_with, str_eq, string_of, substring};
use crate::usecase::heads::{assemble_head_rows, head_row_views, opt_str, read_head, HeadRow, HeadRowView};

verus! {

/// One remote's block: its name, URL lines and tracking branches.
#[derive(Debug, Clone, PartialEq, Eq)]
pub struct RemoteBlock {
    name: String,
    urls: Vec<RemoteUrl>,
    heads: Vec<HeadRow>,
}

impl RemoteBlock {
    /// The remote's name.
    pub closed spec fn spec_name(&self) -> Seq<char> {
        self.name@
    }

    /// The URL lines.
    pub closed spec fn spec_urls(&self) -> Seq<UrlLine> {
        url_views(self.urls@)
    }

    /// The tracking branches, in listing order.
    pub closed spec fn spec_heads(&self) -> Seq<HeadRowView> {
        head_row_views(self.heads@)
    }

    /// The remote's name.
    pub fn name(&self) -> (r: &str)
        ensures
            r@ == self.spec_name(),
    {
        self.name.as_str()
    }

    /// The URL lines (gitweb's `git_remote_block` rule).
    pub fn urls(&self) -> (r: &[RemoteUrl])
        ensures
            url_views(r@) == self.spec_urls(),
    {
        self.urls.as_slice()
    }

    /// The remote-tracking branches, in listing order.
    pub fn heads(&self) -> (r: &[HeadRow])
        ensures
            head_row_views(r@) == self.spec_heads(),
    {
        self.heads.as_slice()
    }
}

/// The assembled remotes view.
#[derive(Debug, Clone, PartialEq, Eq)]
pub struct RemotesView {
    blocks: Vec<RemoteBlock>,
    single: bool,
}

impl RemotesView {
    /// The blocks, one per shown remote.
    pub closed spec fn spec_blocks(&self) -> Seq<RemoteBlock> {
        self.blocks@
    }

    /// Whether one remote was selected.
    pub closed spec fn spec_single(&self) -> bool {
        self.single
    }

    /// The remote blocks, in name order.
    pub fn blocks(&self) -> (r: &[RemoteBlock])
        ensures
            r@ == self.spec_blocks(),
    {
        self.blocks.as_slice()
    }

    /// Whether this is the single-remote view.
    pub fn is_single(&self) -> (r: bool)
        ensures
            r == self.spec_single(),
    {
        self.single
    }
}

/// The index of the first remote of `remotes` named `name`.
pub open spec fn first_named(remotes: Seq<Remote>, name: Seq<char>) -> Option<int>
    decreases remotes.len(),
{
    if remotes.len() == 0 {
        None
    } else if remotes.last().spec_name() == name && first_named(remotes.drop_last(), name) is None {
        Some(remotes.len() - 1)
    } else {
        first_named(remotes.drop_last(), name)
    }
}

/// The message for a selected remote that is not configured.
pub open spec fn remote_missing_message(name: Seq<char>) -> Seq<char> {
    "Remote "@ + name + " not found"@
}

/// The remotes shown for `selected` among the configured `remotes`: the
/// first one of that name alone, or all of them; `None` when there is nothing
/// to show.
pub open spec fn shown_remotes(remotes: Seq<Remote>, selected: Option<Seq<char>>) -> Option<Seq<Remote>> {
    match selected {
        Some(name) => match first_named(remotes, name) {
            Some(i) => Some(seq![remotes[i]]),
            None => None,
        },
        None => if remotes.len() == 0 {
            None
        } else {
            Some(remotes)
        },
    }
}

/// Chooses the remotes to show: the selected one alone (404 when none has
/// that name), or all of them (404 "No remotes found" when there are none).
pub fn select(remotes: Vec<Remote>, selected: Option<&str>) -> (r: Result<Vec<Remote>, DomainError>)
    ensures
        selected matches Some(name) ==> match first_named(remotes@, name@) {
            Some(i) => r matches Ok(v) && v@ == seq![remotes@[i]],
            None => r matches Err(e) && e@ == ErrorView::NotFound(remote_missing_message(name@)),
        },
        selected is None && remotes@.len() == 0 ==> (r matches Err(e) && e@ == ErrorView::NotFound(
            "No remotes found"@,
        )),
        selected is None && remotes@.len() > 0 ==> (r matches Ok(v) && v@ == remotes@),
        r matches Ok(v) ==> shown_remotes(remotes@, opt_str(selected)) == Some(v@),
        r is Err <==> shown_remotes(remotes@, opt_str(selected)) is None,
{
    match selected {
        Some(name) => {
            let mut i: usize = 0;
            while i < remotes.len()
                invariant
                    0 <= i <= remotes@.len(),
                    selected == Some(name),
                    forall|k: int| 0 <= k < i ==> (#[trigger] remotes@[k]).spec_name() != name@,
                decreases remotes.len() - i,
            {
                if str_eq(remotes[i].name(), name) {
                    proof {
                        lemma_first_named(remotes@, name@, i as int);
                    }
                    let ghost all = remotes@;
                    let mut rest: Vec<Remote> = remotes;
                    let found: Remote = rest.swap_remove(i);
                    assert(found == all[i as int]);
                    let out: Vec<Remote> = vec![found];
                    assert(out@ =~= seq![all[i as int]]);
                    return Ok(out);
                }
                i += 1;
            }
            proof {
                lemma_none_named(remotes@, name@);
            }
            let mut msg: Vec<char> = chars_of("Remote ");
            push_str(&mut msg, name);
            push_str(&mut msg, " not found");
            Err(DomainError::NotFound(string_of(msg.as_slice())))
        },
        None => if remotes.len() == 0 {
            Err(crate::error::not_found("No remotes found"))
        } else {
            Ok(remotes)
        },
    }
}

proof fn lemma_first_named(remotes: Seq<Remote>, name: Seq<char>, i: int)
    requires
        0 <= i < remotes.len(),
        remotes[i].spec_name() == name,
        forall|k: int| 0 <= k < i ==> (#[trigger] remotes[k]).spec_name() != name,
    ensures
        first_named(remotes, name) == Some(i),
    decreases remotes.len(),
{
    if remotes.len() - 1 > i {
        lemma_first_named(remotes.drop_last(), name, i);
    } else {
        lemma_none_named(remotes.drop_last(), name);
    }
}

proof fn lemma_first_named_names(remotes: Seq<Remote>, name: Seq<char>)
    ensures
        first_named(remotes, name) matches Some(i) ==> 0 <= i < remotes.len() && remotes[i].spec_name() == name,
    decreases remotes.len(),
{
    if remotes.len() > 0 {
        lemma_first_named_names(remotes.drop_last(), name);
    }
}

proof fn lemma_none_named(remotes: Seq<Remote>, name: Seq<char>)
    requires
        forall|k: int| 0 <= k < remotes.len() ==> (#[trigger] remotes[k]).spec_name() != name,
    ensures
        first_named(remotes, name) is None,
    decreases remotes.len(),
{
    if remotes.len() > 0 {
        assert(remotes.last() == remotes[remotes.len() - 1]);
        lemma_none_named(remotes.drop_last(), name);
    }
}

/// A tracking branch's display name: its short name without the remote's
/// `<name>/` prefix (kept whole when it lacks it).
pub open spec fn tracking_name_of(full: Seq<char>, strip: Seq<char>) -> Seq<char> {
    let short = short_name(full);
    if has_prefix(short, strip) {
        short.skip(strip.len() as int)
    } else {
        short
    }
}

/// The display name of a tracking branch (see [`tracking_name_of`]).
pub fn tracking_name(reference: &Reference, strip: &str) -> (r: String)
    ensures
        r@ == tracking_name_of(reference.spec_name()@, strip@),
{
    let short: String = reference.short();
    let s: Vec<char> = chars_of(short.as_str());
    let p: Vec<char> = chars_of(strip);
    if starts_with(&s, &p) {
        substring(&s, p.len(), s.len())
    } else {
        short
    }
}

fn tracking_names(references: &Vec<Reference>, strip: &str) -> (r: Vec<String>)
    ensures
        r@.len() == references@.len(),
        forall|i: int|
            0 <= i < r@.len() ==> (#[trigger] r@[i])@ == tracking_name_of(references@[i].spec_name()@, strip@),
{
    let mut names: Vec<String> = Vec::new();
    let mut i: usize = 0;
    while i < references.len()
        invariant
            0 <= i <= references@.len(),
            names@.len() == i,
            forall|k: int|
                0 <= k < i ==> (#[trigger] names@[k])@ == tracking_name_of(references@[k].spec_name()@, strip@),
        decreases references.len() - i,
    {
        names.push(tracking_name(&references[i], strip));
        i += 1;
    }
    names
}

/// One remote's block: its URL lines and its tracking branches under
/// `refs/remotes/<name>/`, ordered and aged as the heads listing.
pub fn remote_block<R: Repository>(
    repo: &R,
    remote: &Remote,
    head_branch: Option<&str>,
    head_commit: Option<&ObjectId>,
    now: i64,
) -> (r: Result<RemoteBlock, DomainError>)
    ensures
        r matches Ok(b) ==> b.spec_name() == remote.spec_name()
            && b.spec_urls() == url_lines_for(remote.spec_fetch(), remote.spec_push()),
{
    let mut prefix: Vec<char> = chars_of("refs/remotes/");
    push_str(&mut prefix, remote.name());
    push_str(&mut prefix, "/");
    let prefix_text: String = string_of(prefix.as_slice());
    let references: Vec<Reference> = match repo.references(prefix_text.as_str()) {
        Ok(r) => r,
        Err(e) => return Err(e),
    };
    let mut strip: Vec<char> = chars_of(remote.name());
    push_str(&mut strip, "/");
    let strip_text: String = string_of(strip.as_slice());
    let names: Vec<String> = tracking_names(&references, strip_text.as_str());
    let heads: Vec<HeadRow> = match assemble_head_rows(repo, references.as_slice(), names, head_branch, head_commit, now) {
        Ok(h) => h,
        Err(e) => return Err(e),
    };
    Ok(RemoteBlock { name: remote.name().to_owned(), urls: remote.url_lines(), heads })
}

/// Whether the remotes view may be shown: only with the `remote_heads`
/// feature on; otherwise 403 "Remote heads view is disabled".
pub fn check_remote_heads(settings: &Settings) -> (r: Result<(), DomainError>)
    ensures
        r is Ok <==> feature_enabled(settings@.features[feature_index(FeatureName::RemoteHeads)]),
        r matches Err(e) ==> e@ == ErrorView::Forbidden("Remote heads view is disabled"@),
{
    if settings.feature(FeatureName::RemoteHeads).enabled() {
        Ok(())
    } else {
        Err(crate::error::forbidden("Remote heads view is disabled"))
    }
}

/// The names of the blocks.
pub open spec fn block_names(blocks: Seq<RemoteBlock>) -> Seq<Seq<char>> {
    blocks.map_values(|b: RemoteBlock| b.spec_name())
}

/// The names of the remotes.
pub open spec fn remote_names(remotes: Seq<Remote>) -> Seq<Seq<char>> {
    remotes.map_values(|r: Remote| r.spec_name())
}

/// `blocks` are the blocks of the remotes shown for `selected` among some
/// configured remotes (see [`shown_remotes`]): one per shown remote, in order,
/// each with its name and URL lines.
pub open spec fn blocks_of_selection(blocks: Seq<RemoteBlock>, selected: Option<Seq<char>>) -> bool {
    exists|remotes: Seq<Remote>| #[trigger] blocks_of_remotes(blocks, remotes, selected)
}

/// The witness form of [`blocks_of_selection`].
pub open spec fn blocks_of_remotes(blocks: Seq<RemoteBlock>, remotes: Seq<Remote>, selected: Option<Seq<char>>) -> bool {
    shown_remotes(remotes, selected) matches Some(shown) && {
        &&& blocks.len() == shown.len()
        &&& forall|i: int|
            0 <= i < blocks.len() ==> (#[trigger] blocks[i]).spec_name() == shown[i].spec_name()
                && blocks[i].spec_urls() == url_lines_for(shown[i].spec_fetch(), shown[i].spec_push())
    }
}

/// Assembles the remotes view over the [`Repository`] port: 403 when the
/// `remote_heads` feature is off (see [`check_remote_heads`]), else the
/// selected remote (or all of them, see [`select`]) with tracking-branch ages
/// at `now`.
pub fn assemble_remotes<R: Repository>(repo: &R, settings: &Settings, selected: Option<&str>, now: i64) -> (r: Result<RemotesView, DomainError>)
    ensures
        !feature_enabled(settings@.features[feature_index(FeatureName::RemoteHeads)]) ==> (r matches Err(e)
            && e@ == ErrorView::Forbidden("Remote heads view is disabled"@)),
        r matches Ok(v) ==> v.spec_single() == selected is Some,
        r matches Ok(v) ==> blocks_of_selection(v.spec_blocks(), opt_str(selected)),
        r matches Ok(v) ==> (selected matches Some(n) ==> block_names(v.spec_blocks()) == seq![n@]),
{
    match check_remote_heads(settings) {
        Ok(()) => {},
        Err(e) => return Err(e),
    }
    let remotes: Vec<Remote> = match repo.remotes() {
        Ok(r) => r,
        Err(e) => return Err(e),
    };
    let ghost all = remotes@;
    let shown: Vec<Remote> = match select(remotes, selected) {
        Ok(s) => s,
        Err(e) => return Err(e),
    };
    let (head_branch, head_commit): (Option<String>, Option<ObjectId>) = match read_head(repo) {
        Ok(h) => h,
        Err(e) => return Err(e),
    };
    let branch: Option<&str> = match &head_branch {
        Some(b) => Some(b.as_str()),
        None => None,
    };
    let mut blocks: Vec<RemoteBlock> = Vec::new();
    let mut i: usize = 0;
    while i < shown.len()
        invariant
            0 <= i <= shown@.len(),
            feature_enabled(settings@.features[feature_index(FeatureName::RemoteHeads)]),
            blocks@.len() == i,
            forall|k: int|
                0 <= k < i ==> (#[trigger] blocks@[k]).spec_name() == shown@[k].spec_name() && blocks@[k].spec_urls()
                    == url_lines_for(shown@[k].spec_fetch(), shown@[k].spec_push()),
        decreases shown.len() - i,
    {
        match remote_block(repo, &shown[i], branch, head_commit.as_ref(), now) {
            Ok(b) => blocks.push(b),
            Err(e) => return Err(e),
        }
        i += 1;
    }
    let view = RemotesView { blocks, single: selected.is_some() };
    proof {
        assert(blocks_of_remotes(view.spec_blocks(), all, opt_str(selected)));
        if selected is Some {
            lemma_first_named_names(all, selected->0@);
            assert(block_names(view.spec_blocks()) =~= seq![selected->0@]);
        }
    }
    Ok(view)
}

} // verus!
