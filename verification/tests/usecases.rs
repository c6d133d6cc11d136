use gitweb_domain::error::DomainError;
use gitweb_domain::model::action::Action;
use gitweb_domain::model::blame::{Blame, BlameLine};
use gitweb_domain::model::blob::Blob;
use gitweb_domain::model::commit::Commit;
use gitweb_domain::model::file_mode::FileMode;
use gitweb_domain::model::object_id::ObjectId;
use gitweb_domain::model::object_kind::ObjectKind;
use gitweb_domain::model::project_info::ProjectInfo;
use gitweb_domain::model::ref_name::RefName;
use gitweb_domain::model::reference::{DereferencedRef, Reference};
use gitweb_domain::model::remote::{Remote, RemoteUrl};
use gitweb_domain::model::settings::{FeatureLayer, FeatureName, Settings, SettingsLayer};
use gitweb_domain::model::signature::Signature;
use gitweb_domain::model::snapshot::{ArchiveFormat, ArchiveOptions};
use gitweb_domain::model::tag::Tag;
use gitweb_domain::model::tree::{Tree, TreeEntry};
use gitweb_domain::port::repository::{Page, RenameDetection, Repository, SearchKind, SearchQuery};
use gitweb_domain::model::change::ChangeStatus;
use gitweb_domain::model::diff::{CombinedDiff, CombinedDiffEntry, CombinedParent, Diff, DiffEntry};
use gitweb_domain::model::file_change::{FileChangeNote, KindChange, PermChange};
use gitweb_domain::model::file_mode::FileKind;
use gitweb_domain::model::message_body::LogLine;
use gitweb_domain::model::project::Project;
use gitweb_domain::model::project_filter::ProjectFilter;
use gitweb_domain::model::project_order::ProjectOrder;
use gitweb_domain::port::project_store::ProjectStore;
use gitweb_domain::usecase::commit::{assemble_commit, ChangedFiles};
use gitweb_domain::usecase::log::{assemble_log, log_of};
use gitweb_domain::usecase::log_generic::CommitWindow;
use gitweb_domain::usecase::ref_markers::RefMarkerIndex;
use gitweb_domain::model::ref_marker::MarkerView;
use gitweb_domain::usecase::project_list::assemble_project_list;
use gitweb_domain::usecase::forks::assemble_forks;
use gitweb_domain::usecase::project_index::{assemble_project_index, check_discovered, index_of};
use gitweb_domain::usecase::opml::{assemble_opml, opml_of};
use gitweb_domain::usecase::blame::assemble_blame;
use gitweb_domain::usecase::heads::{assemble_heads, tip_epoch};
use gitweb_domain::usecase::history::{assemble_history, history_of};
use gitweb_domain::usecase::object::assemble_object_redirect;
use gitweb_domain::usecase::object_dispatch::resolve_dispatch_action;
use gitweb_domain::usecase::remotes::{assemble_remotes, check_remote_heads};
use gitweb_domain::usecase::search::{assemble_search, SearchCriteria};
use gitweb_domain::model::grep::{GrepMatch, GrepResults};
use gitweb_domain::model::grep_pattern::GrepPattern;
use gitweb_domain::model::pickaxe::{PickaxeChange, PickaxeMatch};
use gitweb_domain::model::pickaxe_pattern::PickaxePattern;
use gitweb_domain::usecase::grep::{assemble_grep, GrepLine, GrepRow};
use gitweb_domain::usecase::pickaxe::assemble_pickaxe;
use gitweb_domain::model::patch::{FilePatch, Patch};
use gitweb_domain::usecase::search_help::assemble_search_help;
use gitweb_domain::usecase::shortlog::assemble_shortlog;
use gitweb_domain::usecase::snapshot::{archive_options, assemble_snapshot};
use gitweb_domain::usecase::summary::assemble_summary;
use gitweb_domain::usecase::tag::show_tag;
use gitweb_domain::usecase::tags::{assemble_tags, tags_view_of, TagEntry};
use gitweb_domain::usecase::tree::{assemble_tree, check_tree_ish, parent_dir, subtree_of_entry};
use gitweb_domain::usecase::commitdiff::commit_of_kind;
use gitweb_domain::usecase::project_list::{listed_names, listing_view};
use gitweb_domain::usecase::blobdiff::file_view;

fn oid(c: char) -> ObjectId {
    ObjectId::parse(&std::iter::repeat(c).take(40).collect::<String>()).unwrap()
}

fn sig(name: &str, epoch: i64) -> Signature {
    Signature::parse(&format!("{name} <{}@example.com> {epoch} +0000", name.to_lowercase())).unwrap()
}

fn commit(c: char, epoch: i64, message: &str) -> Commit {
    Commit::new(oid(c), oid('e'), vec![], sig("Alice", epoch), sig("Bob", epoch), message.to_owned())
}

fn reference(name: &str, c: char) -> Reference {
    Reference::new(RefName::new(name.to_owned()), oid(c))
}

#[derive(Default)]
struct Fake {
    head: Option<Reference>,
    refs: Vec<Reference>,
    commits: Vec<Commit>,
    tags: Vec<Tag>,
    kinds: Vec<(ObjectId, ObjectKind)>,
    remotes: Vec<Remote>,
    entries: Vec<(String, TreeEntry)>,
    tree: Vec<TreeEntry>,
    blame: Vec<BlameLine>,
    grep_hits: Vec<GrepMatch>,
    grep_trimmed: bool,
    pickaxe_changes: Vec<PickaxeChange>,
    patch_files: Vec<FilePatch>,
    blob_bytes: Option<Vec<u8>>,
    tag_name: Option<String>,
}

fn same(a: &ObjectId, b: &ObjectId) -> bool {
    a.as_str() == b.as_str()
}

fn missing() -> DomainError {
    DomainError::NotFound("missing".to_owned())
}

impl Repository for Fake {
    fn head(&self) -> Result<Reference, DomainError> {
        self.head.clone().ok_or_else(missing)
    }
    fn references(&self, prefix: &str) -> Result<Vec<Reference>, DomainError> {
        Ok(self.refs.iter().filter(|r| r.name().full().starts_with(prefix)).cloned().collect())
    }
    fn dereferenced_references(&self) -> Result<Vec<DereferencedRef>, DomainError> {
        Ok(vec![])
    }
    fn remotes(&self) -> Result<Vec<Remote>, DomainError> {
        Ok(self.remotes.clone())
    }
    fn resolve(&self, rev: &str) -> Result<ObjectId, DomainError> {
        if rev == "HEAD" {
            return self.head.as_ref().map(|r| r.target().clone()).ok_or_else(missing);
        }
        if let Some(r) = self.refs.iter().find(|r| r.name().full() == rev || r.short() == rev) {
            return Ok(r.target().clone());
        }
        ObjectId::parse(rev).ok_or_else(missing)
    }
    fn object_kind(&self, oid: &ObjectId) -> Result<ObjectKind, DomainError> {
        self.kinds.iter().find(|(o, _)| same(o, oid)).map(|(_, k)| *k).ok_or_else(missing)
    }
    fn find_commit(&self, oid: &ObjectId) -> Result<Commit, DomainError> {
        self.commits
            .iter()
            .find(|c| same(c.id(), oid))
            .map(|c| {
                Commit::new(
                    c.id().clone(),
                    c.tree().clone(),
                    c.parents().to_vec(),
                    c.author().clone(),
                    c.committer().clone(),
                    c.message().to_owned(),
                )
            })
            .ok_or_else(missing)
    }
    fn find_tree(&self, _oid: &ObjectId) -> Result<Tree, DomainError> {
        Ok(Tree::new(self.tree.clone()))
    }
    fn find_blob(&self, _oid: &ObjectId) -> Result<Blob, DomainError> {
        Ok(Blob::new(self.blob_bytes.clone().unwrap_or_else(|| b"target/path".to_vec())))
    }
    fn object_size(&self, _oid: &ObjectId) -> Result<u64, DomainError> {
        Ok(42)
    }
    fn rev_name_tag(&self, _oid: &ObjectId) -> Result<Option<String>, DomainError> {
        Ok(self.tag_name.clone())
    }
    fn find_tag(&self, oid: &ObjectId) -> Result<Tag, DomainError> {
        self.tags.iter().find(|t| same(t.id(), oid)).cloned().ok_or_else(missing)
    }
    fn path_id(&self, _at: &ObjectId, path: &str) -> Result<Option<ObjectId>, DomainError> {
        Ok(self.entries.iter().find(|(p, _)| p == path).map(|(_, e)| e.oid().clone()))
    }
    fn path_entry(&self, _at: &ObjectId, path: &str) -> Result<Option<TreeEntry>, DomainError> {
        Ok(self.entries.iter().find(|(p, _)| p == path).map(|(_, e)| e.clone()))
    }
    fn history(&self, _start: &ObjectId, _path: Option<&str>, page: Page) -> Result<Vec<Commit>, DomainError> {
        Ok(self
            .commits
            .iter()
            .skip(page.skip)
            .take(page.limit)
            .map(|c| {
                Commit::new(
                    c.id().clone(),
                    c.tree().clone(),
                    vec![],
                    c.author().clone(),
                    c.committer().clone(),
                    c.message().to_owned(),
                )
            })
            .collect())
    }
    fn diff(&self, _from: Option<&ObjectId>, _to: &ObjectId, _detection: RenameDetection) -> Result<Diff, DomainError> {
        Ok(Diff::new(vec![
            DiffEntry::new(
                ChangeStatus::Added,
                oid('0'),
                oid('1'),
                "new.txt".to_owned(),
                "new.txt".to_owned(),
                FileMode::new(0),
                FileMode::new(0o100755),
                None,
            ),
            DiffEntry::new(
                ChangeStatus::Modified,
                oid('2'),
                oid('3'),
                "f".to_owned(),
                "f".to_owned(),
                FileMode::new(0o100644),
                FileMode::new(0o100755),
                None,
            ),
        ]))
    }
    fn patch(&self, _from: Option<&ObjectId>, _to: &ObjectId, _detection: RenameDetection) -> Result<Patch, DomainError> {
        Ok(Patch::new(self.patch_files.clone()))
    }
    fn combined_diff(&self, _commit: &ObjectId) -> Result<CombinedDiff, DomainError> {
        Ok(CombinedDiff::new(vec![CombinedDiffEntry::new(
            vec![CombinedParent::new(ChangeStatus::Added, oid('0')), CombinedParent::new(ChangeStatus::Modified, oid('4'))],
            oid('0'),
            FileMode::new(0),
            "gone".to_owned(),
        )]))
    }
    fn abbrev_length(&self) -> Result<usize, DomainError> {
        Ok(7)
    }
    fn blame(&self, _at: &ObjectId, _path: &str) -> Result<Blame, DomainError> {
        Ok(Blame::new(self.blame.clone()))
    }
    fn archive(&self, _tree: &ObjectId, _format: ArchiveFormat, options: &ArchiveOptions) -> Result<Vec<u8>, DomainError> {
        Ok(options.prefix.as_bytes().to_vec())
    }
    fn search(&self, base: &ObjectId, query: &SearchQuery, page: Page) -> Result<Vec<Commit>, DomainError> {
        let _ = (base, query.kind);
        let hits: Vec<Commit> = self
            .commits
            .iter()
            .filter(|c| query.pattern.is_match(c.message()))
            .skip(page.skip)
            .take(page.limit)
            .map(|c| {
                Commit::new(
                    c.id().clone(),
                    c.tree().clone(),
                    vec![],
                    c.author().clone(),
                    c.committer().clone(),
                    c.message().to_owned(),
                )
            })
            .collect();
        Ok(hits)
    }
    fn pickaxe(&self, _base: &ObjectId, pattern: &PickaxePattern) -> Result<Vec<PickaxeMatch>, DomainError> {
        Ok(self
            .commits
            .iter()
            .filter(|c| c.message().contains(pattern.raw()))
            .map(|c| {
                let copy = Commit::new(
                    c.id().clone(),
                    c.tree().clone(),
                    vec![],
                    c.author().clone(),
                    c.committer().clone(),
                    c.message().to_owned(),
                );
                PickaxeMatch::new(copy, self.pickaxe_changes.clone())
            })
            .collect())
    }
    fn grep(&self, _revision: &ObjectId, _pattern: &GrepPattern) -> Result<GrepResults, DomainError> {
        Ok(GrepResults::new(self.grep_hits.clone(), self.grep_trimmed))
    }
}

fn three_commits() -> Fake {
    Fake {
        head: Some(reference("refs/heads/main", 'a')),
        commits: vec![
            commit('a', 1_000_000, "third change\n\nbody"),
            commit('b', 900_000, "second change"),
            commit('c', 800_000, ""),
        ],
        ..Fake::default()
    }
}

#[test]
fn shortlog_pages_with_surplus_probe() {
    let repo = three_commits();
    let view = assemble_shortlog(&repo, None, 1_000_100, Page::new(0, 2)).unwrap();
    assert_eq!(view.rows().len(), 2);
    assert!(view.has_more());
    assert_eq!(view.rows()[0].title(), "third change");
    assert_eq!(view.rows()[0].author(), "Alice");
    assert_eq!(view.rows()[0].date().shown(), "100 sec ago");
    let last = assemble_shortlog(&repo, None, 1_000_100, Page::new(2, 2)).unwrap();
    assert_eq!(last.rows().len(), 1);
    assert!(!last.has_more());
    assert_eq!(last.rows()[0].title(), "(no commit message)");
}

#[test]
fn shortlog_of_unborn_repository_is_empty() {
    let repo = Fake::default();
    let view = assemble_shortlog(&repo, None, 0, Page::new(0, 10)).unwrap();
    assert!(view.rows().is_empty());
    assert!(!view.has_more());
}

#[test]
fn heads_newest_first_head_floated_on_ties() {
    let mut repo = three_commits();
    repo.refs = vec![
        reference("refs/heads/old", 'c'),
        reference("refs/heads/zeta", 'b'),
        reference("refs/heads/main", 'a'),
        reference("refs/heads/alpha", 'a'),
    ];
    let view = assemble_heads(&repo, 1_000_000, &["heads"]).unwrap();
    let names: Vec<&str> = view.rows().iter().map(|r| r.name()).collect();
    assert_eq!(names, vec!["main", "alpha", "zeta", "old"]);
    assert!(view.rows()[0].current());
    assert!(view.rows()[1].current());
    assert!(!view.rows()[2].current());
    assert_eq!(view.rows()[2].age().unwrap().seconds(), 100_000);
}

#[test]
fn tags_classify_annotated_and_lightweight() {
    let mut repo = three_commits();
    repo.refs = vec![reference("refs/tags/v1", 'b'), reference("refs/tags/v2", 'd')];
    repo.kinds = vec![(oid('b'), ObjectKind::Commit), (oid('d'), ObjectKind::Tag)];
    repo.tags = vec![Tag::new(
        oid('d'),
        oid('a'),
        ObjectKind::Commit,
        "v2".to_owned(),
        Some(sig("Tagger", 950_000)),
        "\r\nRelease two\r\nmore".to_owned(),
    )];
    let view = assemble_tags(&repo, 1_000_000).unwrap();
    assert_eq!(view.rows().len(), 2);
    assert_eq!(view.rows()[0].name(), "v2");
    assert!(view.rows()[0].annotated());
    assert_eq!(view.rows()[0].subject(), Some("Release two"));
    assert_eq!(view.rows()[0].refid().as_str(), oid('a').as_str());
    assert_eq!(view.rows()[1].name(), "v1");
    assert_eq!(view.rows()[1].subject(), None);
    assert_eq!(view.rows()[1].age().unwrap().seconds(), 100_000);
}

#[test]
fn tag_page_requires_tag_object() {
    let mut repo = three_commits();
    repo.kinds = vec![(oid('a'), ObjectKind::Commit)];
    match show_tag(&repo, oid('a').as_str()) {
        Err(DomainError::NotFound(m)) => assert_eq!(m, "Unknown tag object"),
        _ => panic!("a commit is not a tag"),
    }
}

#[test]
fn blame_groups_are_maximal_runs() {
    let mut repo = three_commits();
    repo.blame = vec![
        BlameLine::new(oid('a'), 1, 1, "one".to_owned()),
        BlameLine::new(oid('a'), 2, 2, "two".to_owned()),
        BlameLine::new(oid('b'), 7, 3, "three".to_owned()),
        BlameLine::new(oid('a'), 9, 4, "four".to_owned()),
    ];
    let view = assemble_blame(&repo, None, "file.txt").unwrap();
    let groups = view.groups();
    assert_eq!(groups.len(), 3);
    assert_eq!((groups[0].numlines(), groups[1].numlines(), groups[2].numlines()), (2, 1, 1));
    assert_eq!(groups[1].orig_lineno(), 7);
    assert_eq!(groups[1].final_lineno(), 3);
    assert_eq!(groups[0].short_commit(), "aaaaaaaa");
    assert_eq!(groups[0].author(), "Alice");
    assert_eq!(groups[0].date(), "1970-01-12 13:46:40 +0000");
    assert_eq!(view.rows().len(), 4);
    assert_eq!(view.rows()[3].content(), "four");
    assert_eq!(view.commit_title(), "third change");
}

#[test]
fn history_links_diff_to_current_only_for_changed_files() {
    let mut repo = three_commits();
    repo.entries = vec![("f.txt".to_owned(), TreeEntry::new(FileMode::new(0o100644), "f.txt".to_owned(), oid('f')))];
    repo.kinds = vec![(oid('f'), ObjectKind::Blob)];
    let view = assemble_history(&repo, None, "f.txt", 1_000_000, Page::new(0, 10)).unwrap();
    assert_eq!(view.file_type(), ObjectKind::Blob);
    assert_eq!(view.file_hash(), oid('f').as_str());
    assert_eq!(view.rows().len(), 3);
    assert_eq!(view.rows()[0].diff_to_current(), None);
}

#[test]
fn history_without_the_path_is_unknown_type() {
    let repo = three_commits();
    match assemble_history(&repo, None, "gone", 0, Page::new(0, 10)) {
        Err(DomainError::Backend(m)) => assert_eq!(m, "Unknown type of object"),
        _ => panic!("expected gitweb's 500"),
    }
}

#[test]
fn search_disabled_and_invalid() {
    let repo = three_commits();
    let criteria = SearchCriteria { kind: SearchKind::Commit, text: "change".to_owned(), use_regexp: false };
    match assemble_search(&repo, false, None, &criteria, 0, Page::new(0, 10)) {
        Err(DomainError::Forbidden(m)) => assert_eq!(m, "Search is disabled"),
        _ => panic!("expected forbidden"),
    }
    let bad = SearchCriteria { kind: SearchKind::Commit, text: "(".to_owned(), use_regexp: true };
    assert!(matches!(assemble_search(&repo, true, None, &bad, 0, Page::new(0, 10)), Err(DomainError::Invalid(_))));
}

#[test]
fn search_lists_matches_with_snippets() {
    let repo = three_commits();
    let criteria = SearchCriteria { kind: SearchKind::Commit, text: "change".to_owned(), use_regexp: false };
    let view = assemble_search(&repo, true, None, &criteria, 1_000_000, Page::new(0, 1)).unwrap();
    assert_eq!(view.rows().len(), 1);
    assert!(view.has_more());
    assert_eq!(view.title(), "third change");
    let snippets = view.rows()[0].snippets();
    assert_eq!(snippets.len(), 1);
    assert_eq!(snippets[0].lead(), "third ");
    assert_eq!(snippets[0].matched(), "change");
}

#[test]
fn search_unknown_base_is_not_found() {
    let repo = Fake::default();
    let criteria = SearchCriteria { kind: SearchKind::Author, text: "x".to_owned(), use_regexp: false };
    match assemble_search(&repo, true, None, &criteria, 0, Page::new(0, 10)) {
        Err(DomainError::NotFound(m)) => assert_eq!(m, "Unknown commit object"),
        _ => panic!("expected the unknown-commit 404"),
    }
}

#[test]
fn tree_lists_entries_with_sizes_and_parent() {
    let mut repo = three_commits();
    repo.kinds = vec![(oid('a'), ObjectKind::Commit)];
    repo.entries = vec![("src".to_owned(), TreeEntry::new(FileMode::new(0o40000), "src".to_owned(), oid('d')))];
    repo.tree = vec![
        TreeEntry::new(FileMode::new(0o100644), "lib.rs".to_owned(), oid('1')),
        TreeEntry::new(FileMode::new(0o120000), "link".to_owned(), oid('2')),
        TreeEntry::new(FileMode::new(0o40000), "sub".to_owned(), oid('3')),
    ];
    let view = assemble_tree(&repo, None, Some("src"), true).unwrap();
    assert_eq!(view.commit_title(), Some("third change"));
    assert_eq!(view.parent().unwrap().path(), None);
    assert_eq!(view.rows()[0].size(), Some(42));
    assert_eq!(view.rows()[1].symlink_target(), Some("target/path"));
    assert_eq!(view.rows()[1].size(), Some(11));
    assert_eq!(view.rows()[2].size(), None);
    assert_eq!(view.rows()[2].object_kind(), ObjectKind::Tree);
    match assemble_tree(&repo, None, Some("nope"), true) {
        Err(DomainError::NotFound(m)) => assert_eq!(m, "No such tree"),
        _ => panic!("expected no such tree"),
    }
}

#[test]
fn parent_dir_rules() {
    assert_eq!(parent_dir("a/b/c"), Some("a/b".to_owned()));
    assert_eq!(parent_dir("a/b/"), Some("a".to_owned()));
    assert_eq!(parent_dir("top"), None);
}

#[test]
fn remotes_gated_and_selected() {
    let mut repo = three_commits();
    repo.remotes = vec![Remote::new("origin".to_owned(), Some("u1".to_owned()), Some("u1".to_owned()))];
    repo.refs = vec![reference("refs/remotes/origin/main", 'a')];
    let off = Settings::builtin();
    match assemble_remotes(&repo, &off, None, 0) {
        Err(DomainError::Forbidden(m)) => assert_eq!(m, "Remote heads view is disabled"),
        _ => panic!("remote_heads is off by default"),
    }
    let mut layer = SettingsLayer::default();
    layer.features.insert(FeatureName::RemoteHeads, FeatureLayer { default: Some(vec!["1".to_owned()]), overridable: None });
    let on = Settings::resolve(&[layer]);
    let view = assemble_remotes(&repo, &on, None, 1_000_000).unwrap();
    assert!(!view.is_single());
    assert_eq!(view.blocks()[0].urls(), &[RemoteUrl::Combined("u1".to_owned())]);
    assert_eq!(view.blocks()[0].heads()[0].name(), "main");
    match assemble_remotes(&repo, &on, Some("upstream"), 0) {
        Err(DomainError::NotFound(m)) => assert_eq!(m, "Remote upstream not found"),
        _ => panic!("expected missing remote"),
    }
}

#[test]
fn snapshot_names_and_dates_archive() {
    let mut repo = three_commits();
    repo.kinds = vec![(oid('a'), ObjectKind::Commit)];
    let formats = vec!["tgz".to_owned()];
    let view = assemble_snapshot(&repo, "proj.git", &formats, None, Some("HEAD"), &["heads"]).unwrap();
    assert_eq!(view.content_type(), "application/x-gzip");
    assert_eq!(view.content_disposition(), "inline; filename=\"proj-HEAD-aaaaaaa.tar.gz\"");
    assert_eq!(view.last_modified().unwrap().epoch(), 1_000_000);
    assert_eq!(view.bytes(), b"proj-HEAD-aaaaaaa");
    match assemble_snapshot(&repo, "proj.git", &formats, None, None, &["heads"]) {
        Err(DomainError::NotFound(m)) => assert_eq!(m, "Object does not exist"),
        _ => panic!("expected a missing object"),
    }
}

#[test]
fn summary_metadata_rules() {
    let repo = three_commits();
    let info = ProjectInfo::new("proj.git".to_owned(), Some(String::new()), Some("Owner".to_owned()), None, vec![], None);
    let mut layer = SettingsLayer::default();
    layer.git_base_url_list = Some(vec!["git://host".to_owned()]);
    layer.prevent_xss = Some(true);
    let settings = Settings::resolve(&[layer]);
    let view = assemble_summary(&repo, &info, Some("<b>readme</b>"), &settings, 1_000_000).unwrap();
    assert_eq!(view.description(), "none");
    assert_eq!(view.owner(), Some("Owner"));
    assert_eq!(view.clone_urls(), &["git://host/proj.git".to_owned()]);
    assert_eq!(view.readme(), None);
    assert_eq!(view.last_change().unwrap().epoch(), 1_000_000);
    assert_eq!(view.shortlog().rows().len(), 3);
}

#[test]
fn object_redirect_and_dispatch() {
    let mut repo = three_commits();
    repo.kinds = vec![(oid('a'), ObjectKind::Commit)];
    repo.entries = vec![("mod".to_owned(), TreeEntry::new(FileMode::new(0o160000), "mod".to_owned(), oid('9')))];
    let r = assemble_object_redirect(&repo, Some(oid('a').as_str()), None, None).unwrap();
    assert_eq!(r.action, Action::Commit);
    let g = assemble_object_redirect(&repo, None, Some("HEAD"), Some("mod/")).unwrap();
    assert_eq!(g.action, Action::Commit);
    assert_eq!(g.hash.as_deref(), Some(oid('9').as_str()));
    assert_eq!(g.file_name.as_deref(), Some("mod"));
    match assemble_object_redirect(&repo, None, Some("HEAD"), Some("absent")) {
        Err(DomainError::NotFound(m)) => assert_eq!(m, "File or directory for given base does not exist"),
        _ => panic!("expected a missing path"),
    }
    assert_eq!(resolve_dispatch_action(&repo, Some(oid('a').as_str()), None, None).unwrap(), Action::Commit);
    match resolve_dispatch_action(&repo, None, None, None) {
        Err(DomainError::NotFound(m)) => assert_eq!(m, "Object does not exist"),
        _ => panic!("nothing named"),
    }
}

#[test]
fn search_help_follows_feature_gates() {
    let help = assemble_search_help(&Settings::builtin());
    assert!(!help.topics().is_empty());
}

#[test]
fn commit_page_with_ordinary_changes() {
    let mut repo = three_commits();
    repo.kinds = vec![(oid('a'), ObjectKind::Commit)];
    let view = assemble_commit(&repo, None, None).unwrap();
    assert_eq!(view.title(), "third change");
    assert!(!view.is_merge());
    assert_eq!(view.author().name(), "Alice");
    assert_eq!(view.comment(), &[LogLine::Text("third change".to_owned()), LogLine::Blank, LogLine::Text("body".to_owned())]);
    match view.changes() {
        ChangedFiles::Ordinary { base, changes } => {
            assert!(base.is_none());
            assert_eq!(changes.len(), 2);
            assert_eq!(changes[0].note(), Some(&FileChangeNote::New { kind: FileKind::Executable, perm: Some(0o755) }));
            assert_eq!(
                changes[1].note(),
                Some(&FileChangeNote::ModeChanged {
                    kinds: Some(KindChange { from: FileKind::Regular, to: FileKind::Executable }),
                    perms: Some(PermChange { from: Some(0o644), to: Some(0o755) }),
                })
            );
        }
        ChangedFiles::Combined(_) => panic!("a root commit has an ordinary table"),
    }
    assert_eq!(view.changes().len(), 2);
}

#[test]
fn merge_commit_uses_combined_table() {
    let mut repo = three_commits();
    repo.commits[0] = Commit::new(oid('a'), oid('e'), vec![oid('b'), oid('c')], sig("Alice", 1), sig("Bob", 1), "Merge".to_owned());
    repo.kinds = vec![(oid('a'), ObjectKind::Commit)];
    let view = assemble_commit(&repo, None, None).unwrap();
    assert!(view.is_merge());
    match view.changes() {
        ChangedFiles::Combined(rows) => {
            assert_eq!(rows.len(), 1);
            assert!(rows[0].is_deleted());
            assert!(rows[0].has_history());
            assert!(rows[0].not_deleted());
        }
        _ => panic!("a merge has a combined table"),
    }
    repo.kinds = vec![(oid('a'), ObjectKind::Tree)];
    match assemble_commit(&repo, None, None) {
        Err(DomainError::NotFound(m)) => assert_eq!(m, "Unknown commit object"),
        _ => panic!("a tree is no commit"),
    }
}

#[test]
fn log_rows_carry_body_and_markers() {
    let repo = three_commits();
    let view = assemble_log(&repo, None, 1_000_100, Page::new(0, 10)).unwrap();
    assert_eq!(view.rows().len(), 3);
    assert_eq!(view.rows()[0].age(), "100 sec ago");
    assert_eq!(view.rows()[0].comment().len(), 3);
    assert!(view.rows()[0].markers().is_empty());
    assert!(!view.has_more());
}

struct Store {
    names: Vec<&'static str>,
}

impl ProjectStore for Store {
    type Repo = Fake;
    fn list(&self, filter: Option<&ProjectFilter>) -> Result<Vec<Project>, DomainError> {
        Ok(self
            .names
            .iter()
            .filter(|n| filter.map_or(true, |f| n.starts_with(&format!("{}/", f.path()))))
            .map(|n| Project::new(n.to_string()))
            .collect())
    }
    fn open(&self, name: &str) -> Result<Fake, DomainError> {
        if name.starts_with("bare") {
            Ok(Fake::default())
        } else {
            Ok(three_commits())
        }
    }
    fn container_exists(&self, _subdir: &str) -> bool {
        true
    }
    fn info(&self, name: &str) -> Result<ProjectInfo, DomainError> {
        let activity = if name.starts_with('a') { Some(900) } else { Some(100) };
        Ok(ProjectInfo::new(name.to_owned(), Some(format!("about {name}")), Some("me".to_owned()), None, vec![], activity))
    }
    fn readme_html(&self, _name: &str) -> Result<Option<String>, DomainError> {
        Ok(None)
    }
}

#[test]
fn project_list_orders_and_folds_forks() {
    let store = Store { names: vec!["b.git", "a.git", "a/fork.git", "bare.git"] };
    let mut layer = SettingsLayer::default();
    layer.features.insert(FeatureName::Forks, FeatureLayer { default: Some(vec!["1".to_owned()]), overridable: None });
    let settings = Settings::resolve(&[layer]);
    let view = assemble_project_list(&store, &settings, Some("project"), None, 1000).unwrap();
    assert_eq!(view.order(), ProjectOrder::Project);
    assert!(view.forks_enabled());
    let names: Vec<&str> = view.rows().iter().map(|r| r.name()).collect();
    assert_eq!(names, vec!["a.git", "b.git", "bare.git"]);
    assert_eq!(view.rows()[0].fork_count(), 1);
    assert_eq!(view.rows()[0].age().unwrap().seconds(), 100);
    let by_age = assemble_project_list(&store, &settings, Some("age"), None, 1000).unwrap();
    assert_eq!(by_age.rows()[0].name(), "a.git");
    match assemble_project_list(&store, &settings, Some("size"), None, 1000) {
        Err(DomainError::Invalid(m)) => assert_eq!(m, "Unknown order parameter"),
        _ => panic!("unknown order"),
    }
    let plain = assemble_project_list(&store, &Settings::builtin(), None, None, 1000).unwrap();
    assert_eq!(plain.rows().len(), 4);
}

#[test]
fn forks_page_lists_the_container() {
    let store = Store { names: vec!["a.git", "a/one.git", "a/two.git"] };
    let view = assemble_forks(&store, &Settings::builtin(), "a.git", None, 1000).unwrap();
    let names: Vec<&str> = view.rows().iter().map(|r| r.name()).collect();
    assert_eq!(names, vec!["a/one.git", "a/two.git"]);
    match assemble_forks(&store, &Settings::builtin(), "b.git", None, 1000) {
        Err(DomainError::NotFound(m)) => assert_eq!(m, "No forks found"),
        _ => panic!("no forks"),
    }
}

#[test]
fn project_index_and_opml() {
    let store = Store { names: vec!["a.git", "bare.git"] };
    let index = assemble_project_index(&store).unwrap();
    assert_eq!(index.rows().len(), 2);
    assert_eq!(index.rows()[0].owner(), "me");
    let opml = assemble_opml(&store).unwrap();
    assert_eq!(opml.projects().len(), 1);
    assert_eq!(opml.projects()[0].path(), "a.git");
    let empty = Store { names: vec![] };
    match assemble_opml(&empty) {
        Err(DomainError::NotFound(m)) => assert_eq!(m, "No projects found"),
        _ => panic!("no projects"),
    }
}

fn grep_hit(path: &str, line: Option<(usize, &str)>) -> GrepMatch {
    match line {
        Some((n, text)) => GrepMatch::new(path.to_owned(), Some(n), Some(text.to_owned())),
        None => GrepMatch::new(path.to_owned(), None, None),
    }
}

#[test]
fn grep_gates_in_order() {
    let repo = three_commits();
    match assemble_grep(&repo, false, false, None, "x", false) {
        Err(DomainError::Forbidden(m)) => assert_eq!(m, "Search is disabled"),
        _ => panic!("expected forbidden"),
    }
    match assemble_grep(&repo, true, false, None, "x", false) {
        Err(DomainError::Forbidden(m)) => assert_eq!(m, "Grep search is disabled"),
        _ => panic!("expected forbidden"),
    }
    match assemble_grep(&repo, true, true, None, "(", true) {
        Err(DomainError::Invalid(m)) => assert_eq!(m, "search regexp '('"),
        _ => panic!("expected invalid"),
    }
}

#[test]
fn grep_groups_matches_per_file() {
    let mut repo = three_commits();
    repo.grep_hits = vec![
        grep_hit("a.txt", Some((3, "\tfoo bar"))),
        grep_hit("a.txt", Some((7, "nothing here"))),
        grep_hit("bin.dat", None),
        grep_hit("c.txt", Some((1, "FOO"))),
    ];
    repo.grep_trimmed = true;
    let view = assemble_grep(&repo, true, true, None, "foo", false).unwrap();
    assert_eq!(view.title(), "third change");
    assert_eq!(view.base_id(), oid('a').as_str());
    assert!(view.trimmed());
    let files = view.files();
    assert_eq!(files.len(), 3);
    assert_eq!(files[0].path(), "a.txt");
    assert_eq!(files[0].rows().len(), 2);
    match &files[0].rows()[0] {
        GrepRow::Line { line_no, line: GrepLine::Highlighted(s) } => {
            assert_eq!(*line_no, 3);
            assert_eq!(s.lead(), "        ");
            assert_eq!(s.matched(), "foo");
            assert_eq!(s.trail(), " bar");
        }
        _ => panic!("expected a highlighted line"),
    }
    match &files[0].rows()[1] {
        GrepRow::Line { line_no, line: GrepLine::Plain(t) } => {
            assert_eq!(*line_no, 7);
            assert_eq!(t, "nothing here");
        }
        _ => panic!("expected a plain line"),
    }
    assert_eq!(files[1].path(), "bin.dat");
    assert!(matches!(files[1].rows(), [GrepRow::Binary]));
    match &files[2].rows()[0] {
        GrepRow::Line { line: GrepLine::Highlighted(s), .. } => assert_eq!(s.matched(), "FOO"),
        _ => panic!("expected the case-insensitive highlight"),
    }
}

#[test]
fn grep_same_path_apart_makes_two_blocks() {
    let mut repo = three_commits();
    repo.grep_hits = vec![
        grep_hit("a.txt", Some((1, "x"))),
        grep_hit("b.txt", Some((1, "x"))),
        grep_hit("a.txt", Some((2, "x"))),
    ];
    let view = assemble_grep(&repo, true, true, None, "x", false).unwrap();
    let paths: Vec<&str> = view.files().iter().map(|f| f.path()).collect();
    assert_eq!(paths, vec!["a.txt", "b.txt", "a.txt"]);
    assert!(!view.trimmed());
}

#[test]
fn grep_unknown_base_is_not_found() {
    let repo = Fake::default();
    match assemble_grep(&repo, true, true, None, "x", false) {
        Err(DomainError::NotFound(m)) => assert_eq!(m, "Unknown commit object"),
        _ => panic!("expected not found"),
    }
}

#[test]
fn pickaxe_gates_in_order() {
    let repo = three_commits();
    match assemble_pickaxe(&repo, false, true, None, "x", false, 0) {
        Err(DomainError::Forbidden(m)) => assert_eq!(m, "Search is disabled"),
        _ => panic!("expected forbidden"),
    }
    match assemble_pickaxe(&repo, true, false, None, "x", false, 0) {
        Err(DomainError::Forbidden(m)) => assert_eq!(m, "Pickaxe search is disabled"),
        _ => panic!("expected forbidden"),
    }
    assert!(matches!(assemble_pickaxe(&repo, true, true, None, "[", true, 0), Err(DomainError::Invalid(_))));
    assert!(assemble_pickaxe(&repo, true, true, None, "[", false, 1_000_000).is_ok());
}

#[test]
fn pickaxe_rows_drop_deleted_files() {
    let mut repo = three_commits();
    repo.pickaxe_changes = vec![
        PickaxeChange::new("kept.rs".to_owned(), Some(oid('f'))),
        PickaxeChange::new("gone.rs".to_owned(), None),
        PickaxeChange::new("also.rs".to_owned(), Some(oid('d'))),
    ];
    let view = assemble_pickaxe(&repo, true, true, None, "change", false, 1_000_000).unwrap();
    assert_eq!(view.title(), "third change");
    assert_eq!(view.base_id(), oid('a').as_str());
    let rows = view.rows();
    assert_eq!(rows.len(), 2);
    assert_eq!(rows[0].id(), oid('a').as_str());
    assert_eq!(rows[0].tree_id(), oid('e').as_str());
    assert_eq!(rows[0].author(), "Alice");
    assert_eq!(rows[0].author_short(), "Alice");
    assert_eq!(rows[0].title(), "third change");
    assert_eq!(rows[0].title_short(), "third change");
    assert_eq!(rows[1].title(), "second change");
    let files = rows[0].files();
    assert_eq!(files.len(), 2);
    assert_eq!(files[0].path(), "kept.rs");
    assert_eq!(files[0].blob(), oid('f').as_str());
    assert_eq!(files[1].path(), "also.rs");
    assert_eq!(files[1].blob(), oid('d').as_str());
}

#[test]
fn pickaxe_time_out_of_range_is_backend_error() {
    let repo = three_commits();
    assert!(matches!(
        assemble_pickaxe(&repo, true, true, None, "change", false, i64::MIN),
        Err(DomainError::Backend(_))
    ));
}

use gitweb_domain::model::blob::BlobDisplay;
use gitweb_domain::model::diffstat::StatChange;
use gitweb_domain::model::encoding::FallbackEncoding;
use gitweb_domain::usecase::blob::assemble_blob;
use gitweb_domain::usecase::blob_plain::assemble_blob_plain;
use gitweb_domain::usecase::blobdiff::assemble_blobdiff;
use gitweb_domain::usecase::blobdiff_plain::assemble_blobdiff_plain;
use gitweb_domain::usecase::commitdiff::assemble_commit_diff;
use gitweb_domain::usecase::commitdiff_plain::assemble_commitdiff_plain;
use gitweb_domain::usecase::feed::assemble_feed;
use gitweb_domain::usecase::patch::{assemble_patch, assemble_patches};

fn modified_f() -> FilePatch {
    FilePatch::new(
        ChangeStatus::Modified,
        None,
        FileMode::new(0o100644),
        FileMode::new(0o100644),
        "f".to_owned(),
        "f".to_owned(),
        oid('2'),
        oid('3'),
        Some(vec!["@@ -1 +1 @@".to_owned(), "-old".to_owned(), "+new".to_owned()]),
    )
}

fn renamed_file() -> FilePatch {
    FilePatch::new(
        ChangeStatus::Renamed,
        Some(90),
        FileMode::new(0o100644),
        FileMode::new(0o100644),
        "old.txt".to_owned(),
        "new.txt".to_owned(),
        oid('4'),
        oid('5'),
        Some(vec!["@@ -1 +1 @@".to_owned(), "-a".to_owned(), "+b".to_owned()]),
    )
}

fn added_binary() -> FilePatch {
    FilePatch::new(
        ChangeStatus::Added,
        None,
        FileMode::new(0),
        FileMode::new(0o100644),
        "img.bin".to_owned(),
        "img.bin".to_owned(),
        oid('0'),
        oid('6'),
        None,
    )
}

fn commit_repo() -> Fake {
    let mut repo = three_commits();
    repo.kinds = vec![(oid('a'), ObjectKind::Commit), (oid('b'), ObjectKind::Commit)];
    repo.patch_files = vec![modified_f()];
    repo
}

#[test]
fn feed_lists_commits_with_files() {
    let repo = three_commits();
    let feed = assemble_feed(&repo, None, None, 2_000_000).unwrap();
    let entries = feed.entries();
    assert_eq!(entries.len(), 3);
    assert_eq!(feed.latest().unwrap().epoch(), 1_000_000);
    let first = &entries[0];
    assert_eq!(first.id(), oid('a').as_str());
    assert_eq!(first.parent(), None);
    assert_eq!(first.title(), "third change");
    assert_eq!(first.author(), "Alice <alice@example.com>");
    assert_eq!(first.author_name(), "Alice");
    assert_eq!(first.author_email(), Some("alice@example.com"));
    assert_eq!(first.committer_name(), "Bob");
    assert_eq!(first.committer_email(), Some("bob@example.com"));
    assert_eq!(first.date().epoch(), 1_000_000);
    assert_eq!(first.comment(), ["third change", "", "body"]);
    assert_eq!(first.files().len(), 2);
    assert_eq!(first.files()[0].to_path(), "new.txt");
    assert_eq!(first.files()[1].from_id(), oid('2').as_str());
    let narrowed = assemble_feed(&repo, None, Some("f"), 2_000_000).unwrap();
    let files = narrowed.entries()[0].files();
    assert_eq!(files.len(), 1);
    assert_eq!(files[0].to_path(), "f");
}

#[test]
fn feed_of_unborn_repository_is_empty() {
    let feed = assemble_feed(&Fake::default(), None, None, 0).unwrap();
    assert!(feed.entries().is_empty());
    assert!(feed.latest().is_none());
}

#[test]
fn commit_diff_renders_clean_patch() {
    let repo = commit_repo();
    let text = assemble_commit_diff(&repo, None, None).unwrap();
    assert_eq!(
        text,
        format!("diff --git a/f b/f\nindex {}..{} 100644\n--- a/f\n+++ b/f\n@@ -1 +1 @@\n-old\n+new\n", oid('2').as_str(), oid('3').as_str())
    );
    let mut tree = commit_repo();
    tree.kinds = vec![(oid('a'), ObjectKind::Tree)];
    match assemble_commit_diff(&tree, None, None) {
        Err(DomainError::NotFound(m)) => assert_eq!(m, "Unknown commit object"),
        _ => panic!("expected not found"),
    }
}

#[test]
fn commitdiff_plain_frames_root_commit() {
    let mut repo = commit_repo();
    repo.tag_name = Some("v1^0".to_owned());
    let body = assemble_commitdiff_plain(&repo, None, None).unwrap();
    assert_eq!(body.commit_id(), Some(oid('a').as_str()));
    assert_eq!(body.tag(), Some("v1^0"));
    let expected = format!(
        "From: Alice <alice@example.com>\nDate: {} (+0000)\nSubject: third change\nX-Git-Tag: v1^0\nX-Git-Url: http://x/?p=r\n\nthird change\n\nbody\n---\n\n{}\ndiff --git a/f b/f\nindex 2222222..3333333 100644\n--- a/f\n+++ b/f\n@@ -1 +1 @@\n-old\n+new\n",
        body.date().rfc2822(),
        oid('a').as_str()
    );
    assert_eq!(body.render("http://x/?p=r"), expected);
    let with_parent = assemble_commitdiff_plain(&repo, None, Some(oid('b').as_str())).unwrap();
    assert_eq!(with_parent.commit_id(), None);
}

#[test]
fn blobdiff_resolves_one_file() {
    let mut repo = commit_repo();
    repo.patch_files = vec![modified_f(), renamed_file()];
    let to = oid('a');
    let from = oid('b');
    let view = assemble_blobdiff(&repo, to.as_str(), from.as_str(), Some("new.txt"), None).unwrap();
    assert_eq!(view.title(), "third change");
    assert_eq!(view.file_name(), "new.txt");
    assert_eq!(view.file_parent(), Some("old.txt"));
    let by_hash = assemble_blobdiff(&repo, to.as_str(), from.as_str(), None, Some("3333")).unwrap();
    assert_eq!(by_hash.file_name(), "f");
    assert_eq!(by_hash.file_parent(), None);
    match assemble_blobdiff(&repo, to.as_str(), from.as_str(), Some("zzz"), None) {
        Err(DomainError::NotFound(m)) => assert_eq!(m, "Blob diff not found"),
        _ => panic!("expected not found"),
    }
    match assemble_blobdiff(&repo, to.as_str(), from.as_str(), None, None) {
        Err(DomainError::Invalid(m)) => assert_eq!(m, "Missing one of the blob diff parameters"),
        _ => panic!("expected invalid"),
    }
    match assemble_blobdiff(&repo, to.as_str(), from.as_str(), None, Some("")) {
        Err(DomainError::Invalid(m)) => assert_eq!(m, "Ambiguous blob diff specification"),
        _ => panic!("expected ambiguous"),
    }
    let mut tree_base = repo;
    tree_base.kinds = vec![(oid('a'), ObjectKind::Tree)];
    let view = assemble_blobdiff(&tree_base, to.as_str(), from.as_str(), Some("f"), None).unwrap();
    assert_eq!(view.title(), format!("{} vs {}", oid('3').as_str(), oid('2').as_str()));
}

#[test]
fn blobdiff_plain_renders_one_file() {
    let mut repo = commit_repo();
    repo.patch_files = vec![renamed_file(), modified_f()];
    let to = oid('a');
    let from = oid('b');
    let body = assemble_blobdiff_plain(&repo, to.as_str(), from.as_str(), "f").unwrap();
    assert_eq!(body.body(), "diff --git a/f b/f\nindex 2222222..3333333 100644\n--- a/f\n+++ b/f\n@@ -1 +1 @@\n-old\n+new\n");
    assert!(body.render("u").starts_with("X-Git-Url: u\n\ndiff --git a/f b/f\n"));
    match assemble_blobdiff_plain(&repo, to.as_str(), from.as_str(), "nope") {
        Err(DomainError::NotFound(m)) => assert_eq!(m, "Blob diff not found"),
        _ => panic!("expected not found"),
    }
}

#[test]
fn patch_view_is_gated_and_single() {
    let mut repo = commit_repo();
    repo.patch_files = vec![modified_f(), added_binary()];
    match assemble_patch(&repo, None, 0, "2.40.0") {
        Err(DomainError::Forbidden(m)) => assert_eq!(m, "Patch view not allowed"),
        _ => panic!("expected forbidden"),
    }
    let mail = assemble_patch(&repo, None, 16, "2.40.0").unwrap();
    assert_eq!(mail.version(), "2.40.0");
    let entries = mail.entries();
    assert_eq!(entries.len(), 1);
    let entry = &entries[0];
    assert_eq!(entry.id(), oid('a').as_str());
    assert_eq!(entry.from(), "Alice <alice@example.com>");
    assert_eq!(entry.subject(), "third change");
    assert_eq!(entry.subject_line(), "[PATCH] third change");
    assert_eq!(entry.body(), ["body"]);
    assert_eq!(entry.number(), None);
    let rows = entry.diffstat().entries();
    assert_eq!(rows.len(), 2);
    assert_eq!(rows[0].change(), StatChange::Text { added: 1, deleted: 1 });
    assert_eq!(rows[1].change(), StatChange::Binary { old_size: 0, new_size: 42 });
    assert!(entry.diff().contains("Binary files /dev/null and b/img.bin differ\n"));
}

#[test]
fn patches_are_numbered_oldest_first() {
    let repo = commit_repo();
    let stream = assemble_patches(&repo, None, 2, "v").unwrap();
    let entries = stream.entries();
    assert_eq!(entries.len(), 2);
    assert_eq!(entries[0].id(), oid('b').as_str());
    assert_eq!(entries[0].number(), Some((1, 2)));
    assert_eq!(entries[0].subject_line(), "[PATCH 1/2] second change");
    assert_eq!(entries[1].id(), oid('a').as_str());
    assert_eq!(entries[1].number(), Some((2, 2)));
    assert!(matches!(assemble_patches(&repo, None, 0, "v"), Err(DomainError::Forbidden(_))));
}

fn blob_repo(bytes: &[u8]) -> Fake {
    let mut repo = three_commits();
    repo.kinds = vec![(oid('a'), ObjectKind::Commit), (oid('9'), ObjectKind::Blob), (oid('8'), ObjectKind::Tree)];
    repo.entries = vec![
        ("README".to_owned(), TreeEntry::new(FileMode::new(0o100644), "README".to_owned(), oid('9'))),
        ("logo.png".to_owned(), TreeEntry::new(FileMode::new(0o100644), "logo.png".to_owned(), oid('9'))),
        ("dir".to_owned(), TreeEntry::new(FileMode::new(0o40000), "dir".to_owned(), oid('8'))),
    ];
    repo.blob_bytes = Some(bytes.to_vec());
    repo
}

#[test]
fn blob_shows_text_lines_under_commit_title() {
    let repo = blob_repo(b"line1\nline2\n");
    let view = assemble_blob(&repo, Some(oid('a').as_str()), None, Some("README"), FallbackEncoding::Latin1).unwrap();
    assert_eq!(view.blob_id(), oid('9').as_str());
    assert_eq!(view.commit_title(), Some("third change"));
    assert_eq!(view.display(), BlobDisplay::Text);
    assert_eq!(view.lines(), ["line1", "line2"]);
    let loose = assemble_blob(&repo, None, Some(oid('9').as_str()), None, FallbackEncoding::Latin1).unwrap();
    assert_eq!(loose.commit_title(), None);
    let latin = blob_repo(&[0x63, 0x61, 0x66, 0xE9]);
    let view = assemble_blob(&latin, None, None, Some("README"), FallbackEncoding::Latin1).unwrap();
    assert_eq!(view.lines(), ["café"]);
}

#[test]
fn blob_errors_and_image() {
    let repo = blob_repo(&[0x89, 0x00, 0x01]);
    match assemble_blob(&repo, None, None, None, FallbackEncoding::Latin1) {
        Err(DomainError::Invalid(m)) => assert_eq!(m, "No file name defined"),
        _ => panic!("expected invalid"),
    }
    match assemble_blob(&repo, None, None, Some("missing"), FallbackEncoding::Latin1) {
        Err(DomainError::NotFound(m)) => assert_eq!(m, "Cannot find file"),
        _ => panic!("expected not found"),
    }
    match assemble_blob(&repo, None, None, Some("dir"), FallbackEncoding::Latin1) {
        Err(DomainError::NotFound(m)) => assert_eq!(m, "Cannot find file"),
        _ => panic!("expected not found"),
    }
    let view = assemble_blob(&repo, None, None, Some("logo.png"), FallbackEncoding::Latin1).unwrap();
    assert_eq!(view.display(), BlobDisplay::Image);
    assert!(view.lines().is_empty());
    let view = assemble_blob(&repo, None, None, Some("README"), FallbackEncoding::Latin1).unwrap();
    assert_eq!(view.display(), BlobDisplay::Binary);
}

#[test]
fn blob_plain_serves_bytes_with_headers() {
    let repo = blob_repo(b"hello\n");
    let view = assemble_blob_plain(&repo, None, None, Some("README"), Some("utf-8"), true).unwrap();
    assert_eq!(view.content_type(), "text/plain; charset=utf-8");
    assert_eq!(view.content_disposition(), "inline; filename=\"README\"");
    assert_eq!(view.bytes(), b"hello\n");
    let bin = blob_repo(&[0, 1, 2]);
    let view = assemble_blob_plain(&bin, None, Some(oid('9').as_str()), None, None, true).unwrap();
    assert_eq!(view.content_type(), "application/octet-stream");
    assert_eq!(view.content_disposition(), format!("attachment; filename=\"{}\"", oid('9').as_str()));
    assert_eq!(view.into_bytes(), vec![0, 1, 2]);
}

#[test]
fn commitdiff_plain_time_out_of_range() {
    let mut repo = commit_repo();
    let far = Signature::parse("Alice <alice@example.com> 9223372036854775807 +1400").unwrap();
    repo.commits[0] = Commit::new(oid('a'), oid('e'), vec![], far.clone(), far, "late".to_owned());
    match assemble_commitdiff_plain(&repo, None, None) {
        Err(DomainError::Backend(m)) => assert_eq!(m, "commit time out of range"),
        _ => panic!("expected a backend error"),
    }
}

#[test]
fn tip_epoch_reads_the_answer() {
    assert_eq!(tip_epoch(Ok(commit('a', 42, "m"))), Ok(42));
    assert_eq!(tip_epoch(Err(DomainError::NotFound("gone".to_owned()))), Ok(0));
    assert_eq!(tip_epoch(Err(DomainError::Backend("io".to_owned()))), Err(DomainError::Backend("io".to_owned())));
}

#[test]
fn archive_options_take_name_and_time() {
    let c = commit('a', 77, "m");
    let o = archive_options("r-abc", Some(&c));
    assert_eq!(o.prefix, "r-abc");
    assert_eq!(o.modification_time, 77);
    assert_eq!(archive_options("x", None).modification_time, 0);
}

#[test]
fn commit_of_kind_checks_the_kind() {
    assert_eq!(commit_of_kind(oid('a'), ObjectKind::Commit), Ok(oid('a')));
    match commit_of_kind(oid('a'), ObjectKind::Tree) {
        Err(DomainError::NotFound(m)) => assert_eq!(m, "Unknown commit object"),
        _ => panic!("a tree is not a commit"),
    }
}

#[test]
fn tree_pieces_state_their_errors() {
    assert_eq!(check_tree_ish(&oid('a'), ObjectKind::Commit), Ok(()));
    assert_eq!(check_tree_ish(&oid('a'), ObjectKind::Tree), Ok(()));
    match check_tree_ish(&oid('a'), ObjectKind::Blob) {
        Err(DomainError::Invalid(m)) => assert_eq!(m, format!("not a tree-ish: {} is a blob", oid('a').as_str())),
        _ => panic!("a blob is not a tree-ish"),
    }
    let dir = TreeEntry::new(FileMode::new(0o40000), "src".to_owned(), oid('d'));
    assert_eq!(subtree_of_entry(Some(dir)), Ok(oid('d')));
    let file = TreeEntry::new(FileMode::new(0o100644), "f".to_owned(), oid('f'));
    for entry in [Some(file), None] {
        match subtree_of_entry(entry) {
            Err(DomainError::NotFound(m)) => assert_eq!(m, "No such tree"),
            _ => panic!("expected no such tree"),
        }
    }
}

#[test]
fn listing_pieces() {
    match listed_names(&vec![], "No projects found") {
        Err(DomainError::NotFound(m)) => assert_eq!(m, "No projects found"),
        _ => panic!("an empty listing is 404"),
    }
    let names = listed_names(&vec![Project::new("b.git".to_owned()), Project::new("a.git".to_owned())], "x").unwrap();
    assert_eq!(names, vec!["b.git".to_owned(), "a.git".to_owned()]);
    let infos = vec![
        ProjectInfo::new("b.git".to_owned(), None, None, None, vec![], Some(10)),
        ProjectInfo::new("a.git".to_owned(), None, None, None, vec![], Some(20)),
    ];
    let visible = vec![("b.git".to_owned(), 0), ("a.git".to_owned(), 2)];
    let view = listing_view(infos, &visible, ProjectOrder::Project, true, 100).unwrap();
    assert_eq!(view.rows()[0].name(), "a.git");
    assert_eq!(view.rows()[0].fork_count(), 2);
    assert_eq!(view.rows()[1].name(), "b.git");
    assert_eq!(view.order(), ProjectOrder::Project);
    assert!(view.forks_enabled());
}

#[test]
fn blobdiff_file_view_takes_the_selected_paths() {
    let v = file_view("t".to_owned(), &renamed_file());
    assert_eq!(v.file_name(), "new.txt");
    assert_eq!(v.file_parent(), Some("old.txt"));
    let w = file_view("t".to_owned(), &modified_f());
    assert_eq!(w.file_parent(), None);
}

#[test]
fn log_of_lays_out_each_commit() {
    let window = CommitWindow { commits: vec![commit('a', 100, "first\n\nbody"), commit('b', 50, "second")], has_more: true };
    let markers = RefMarkerIndex::new(vec![], MarkerView::Log);
    let view = log_of(window, 1000, &markers).unwrap();
    assert_eq!(view.rows().len(), 2);
    assert_eq!(view.rows()[0].title(), "first");
    assert_eq!(view.rows()[1].id(), oid('b').as_str());
    assert!(view.has_more());
    let late = CommitWindow { commits: vec![commit('a', 1, "x")], has_more: false };
    match log_of(late, i64::MIN, &markers) {
        Err(DomainError::Backend(m)) => assert_eq!(m, "commit time out of range"),
        _ => panic!("expected a time error"),
    }
}

#[test]
fn history_of_links_changed_blobs() {
    let window = CommitWindow { commits: vec![commit('a', 100, "one"), commit('b', 50, "two")], has_more: false };
    let view = history_of(window, "f", ObjectKind::Blob, oid('3'), vec![Some(oid('3')), Some(oid('9'))], 1000).unwrap();
    assert_eq!(view.file_name(), "f");
    assert_eq!(view.rows().len(), 2);
    assert_eq!(view.rows()[0].diff_to_current(), None);
    assert_eq!(view.rows()[1].diff_to_current(), Some(oid('9').as_str()));
}

#[test]
fn tags_view_of_sorts_newest_first() {
    let entry = |name: &str, epoch: i64| TagEntry {
        name: name.to_owned(),
        full_name: format!("refs/tags/{name}"),
        tag_id: oid('a'),
        reftype: ObjectKind::Commit,
        refid: oid('a'),
        subject: None,
        annotated: false,
        epoch,
    };
    let view = tags_view_of(vec![entry("old", 10), entry("new", 20)], 100).unwrap();
    assert_eq!(view.rows().len(), 2);
    assert_eq!(view.rows()[0].name(), "new");
    assert_eq!(view.rows()[1].name(), "old");
}

#[test]
fn opml_of_keeps_projects_with_head() {
    let projects = vec![Project::new("a.git".to_owned()), Project::new("b.git".to_owned()), Project::new("c.git".to_owned())];
    let o = opml_of(&projects, &vec![true, false, true]).unwrap();
    let paths: Vec<&str> = o.projects().iter().map(|p| p.path()).collect();
    assert_eq!(paths, vec!["a.git", "c.git"]);
    match opml_of(&vec![], &vec![]) {
        Err(DomainError::NotFound(m)) => assert_eq!(m, "No projects found"),
        _ => panic!("an empty root is 404"),
    }
}

#[test]
fn index_pieces() {
    match check_discovered(&vec![]) {
        Err(DomainError::NotFound(m)) => assert_eq!(m, "No projects found"),
        _ => panic!("an empty root is 404"),
    }
    let projects = vec![Project::new("a.git".to_owned())];
    assert_eq!(check_discovered(&projects), Ok(()));
    let infos = vec![ProjectInfo::new("a.git".to_owned(), None, Some("Ann".to_owned()), None, vec![], None)];
    let idx = index_of(&projects, &infos);
    assert_eq!(idx.rows()[0].path(), "a.git");
    assert_eq!(idx.rows()[0].owner(), "Ann");
}

#[test]
fn remote_heads_gate() {
    match check_remote_heads(&Settings::builtin()) {
        Err(DomainError::Forbidden(m)) => assert_eq!(m, "Remote heads view is disabled"),
        _ => panic!("remote_heads is off by default"),
    }
}
