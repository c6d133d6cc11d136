use gitweb_domain::error::DomainError;
use gitweb_domain::model::age::Age;
use gitweb_domain::model::chop::{chop_str, ChopMode};
use gitweb_domain::model::commit_date::CommitDate;
use gitweb_domain::model::object_redirect::{resolution, target_action, Resolution};
use gitweb_domain::model::object_kind::ObjectKind;
use gitweb_domain::model::action::Action;
use gitweb_domain::model::search_pattern::{escape_text, SearchPattern};
use gitweb_domain::model::search_snippet::{context_len, highlight_line, snippet_of};
use gitweb_domain::model::section::Section;
use gitweb_domain::model::settings::{FeatureLayer, FeatureLayers, FeatureName, ProjectOverrides, Settings, SettingsLayer};
use gitweb_domain::model::untabify::untabify;
use gitweb_domain::model::signature::Signature;
use gitweb_domain::model::snapshot::{select_format, snapshot_name, ArchiveFormat};
use gitweb_domain::model::timestamp::Timestamp;
use gitweb_domain::model::url::unescape;
use gitweb_domain::text::std_lines_of;

#[test]
fn chop_right_keeps_word_and_appends_filler() {
    let out = chop_str("hello world this is long text", 10, 10, ChopMode::Right);
    assert_eq!(out, "hello world... ");
}

#[test]
fn chop_right_short_string_unchanged() {
    assert_eq!(chop_str("short", 10, 10, ChopMode::Right), "short");
    assert_eq!(chop_str("exactly fourteen", 12, 10, ChopMode::Right), "exactly fourteen");
}

#[test]
fn chop_right_small_tail_not_replaced() {
    // the dropped tail would be no longer than the filler: kept whole
    assert_eq!(chop_str("abcdefghij", 5, 10, ChopMode::Right), "abcdefghij");
}

#[test]
fn chop_left_keeps_end() {
    assert_eq!(chop_str("abc def ghi jkl mno", 5, 10, ChopMode::Left), " ...jkl mno");
}

#[test]
fn chop_center_keeps_both_ends() {
    assert_eq!(
        chop_str("abcdefghij klmnopqrst uvwxyz", 10, 5, ChopMode::Center),
        "abcdefghij ... uvwxyz"
    );
}

#[test]
fn chop_never_lengthens_on_samples() {
    let samples = ["", "a", "hello world", "a b c d e f g h i j k l m n o p", "xxxxxxxxxxxxxxxxxxxxxxxxxxxxxxxxxxxxxx"];
    for s in samples.iter() {
        for len in [0usize, 1, 3, 5, 10].iter() {
            for mode in [ChopMode::Left, ChopMode::Right].iter() {
                let out = chop_str(s, *len, 10, *mode);
                assert!(out.chars().count() <= s.chars().count());
            }
            let out = chop_str(s, *len, 5, ChopMode::Center);
            assert!(out.chars().count() <= s.chars().count());
        }
    }
}

#[test]
fn age_strings() {
    assert_eq!(Age::from_seconds(1).humanized(), "right now");
    assert_eq!(Age::from_seconds(59).humanized(), "59 sec ago");
    assert_eq!(Age::from_seconds(3 * 86400).humanized(), "3 days ago");
    assert_eq!(Age::from_seconds(3 * 3600).humanized(), "3 hours ago");
    assert_eq!(Age::from_seconds(3 * 604800).humanized(), "3 weeks ago");
}

#[test]
fn commit_date_swaps_after_two_weeks() {
    let recent = CommitDate::new(0, 3600 * 5);
    assert!(!recent.shows_date());
    assert_eq!(recent.shown(), "5 hours ago");
    assert_eq!(recent.hover(), "1970-01-01");
    let old = CommitDate::new(0, 86400 * 30);
    assert!(old.shows_date());
    assert_eq!(old.shown(), "1970-01-01");
    assert_eq!(old.hover(), "4 weeks ago");
}

#[test]
fn timestamp_forms() {
    let t = Timestamp::new(0, "+0100");
    assert_eq!(t.utc_date(), "1970-01-01");
    assert_eq!(t.iso8601(), "1970-01-01T00:00:00Z");
    assert_eq!(t.iso_tz(), "1970-01-01 01:00:00 +0100");
    assert_eq!(t.local_hour(), 1);
    assert_eq!(t.rfc2822(), "Thu, 1 Jan 1970 00:00:00 +0000");
}

#[test]
fn unescape_decodes_plus_and_percent() {
    assert_eq!(unescape("a%20b+c"), "a b c");
    assert_eq!(unescape("%41%42"), "AB");
}

#[test]
fn unescape_plain_token_unchanged() {
    assert_eq!(unescape("plain-token_1.0"), "plain-token_1.0");
}

#[test]
fn unescape_keeps_bad_escape() {
    assert_eq!(unescape("%zz%4"), "%zz%4");
}

#[test]
fn unescape_reads_utf8_and_replaces_invalid() {
    assert_eq!(unescape("%C3%A9"), "\u{e9}");
    assert_eq!(unescape("%FF"), "\u{fffd}");
}

#[test]
fn search_pattern_fixed_is_literal_and_case_insensitive() {
    let p = SearchPattern::new("a(b", false).unwrap();
    assert!(p.is_match("xxA(Byy"));
    assert!(!p.is_match("ab"));
    assert_eq!(p.first_match("xxA(Byy"), Some((2, 5)));
    assert_eq!(p.raw(), "a(b");
}

#[test]
fn search_pattern_bad_regexp_is_invalid() {
    match SearchPattern::new("a(b", true) {
        Err(DomainError::Invalid(m)) => assert_eq!(m, "search regexp 'a(b'"),
        _ => panic!("expected an invalid pattern"),
    }
}

#[test]
fn search_pattern_regexp_mode() {
    let p = SearchPattern::new("fo+", true).unwrap();
    assert!(p.is_match("FOOBAR"));
    assert_eq!(p.first_match("xfooy"), Some((1, 4)));
}

#[test]
fn highlight_splits_at_first_match() {
    let p = SearchPattern::new("bar", false).unwrap();
    let s = highlight_line("foo bar baz", &p).unwrap();
    assert_eq!(s.lead(), "foo ");
    assert_eq!(s.matched(), "bar");
    assert_eq!(s.trail(), " baz");
    assert!(highlight_line("nothing here", &p).is_none());
}

#[test]
fn highlight_handles_multibyte_text() {
    let p = SearchPattern::new("é", false).unwrap();
    let s = highlight_line("café au lait", &p).unwrap();
    assert_eq!(s.lead(), "caf");
    assert_eq!(s.matched(), "é");
    assert_eq!(s.trail(), " au lait");
}

#[test]
fn snippet_context_budget() {
    assert_eq!(context_len(0), 30);
    assert_eq!(context_len(30), 25);
    assert_eq!(context_len(80), 0);
    assert_eq!(context_len(100), 0);
    let s = snippet_of("a", "b", "c");
    assert_eq!((s.lead(), s.matched(), s.trail()), ("a", "b", "c"));
}

#[test]
fn section_truncates_at_cap() {
    let s = Section::limited(vec![1, 2, 3, 4], 3);
    assert_eq!(s.shown(), &[1, 2, 3]);
    assert!(s.is_truncated());
    let t = Section::limited(vec![1, 2], 3);
    assert_eq!(t.shown(), &[1, 2]);
    assert!(!t.is_truncated());
}

#[test]
fn settings_strongest_layer_wins() {
    let mut weak = SettingsLayer::default();
    weak.site_name = Some("Weak".to_owned());
    weak.stylesheets = Some(vec!["a.css".to_owned(), "b.css".to_owned()]);
    let mut strong = SettingsLayer::default();
    strong.site_name = Some("Strong".to_owned());
    let s = Settings::resolve(&[weak.clone(), strong.clone()]);
    assert_eq!(s.site_name(), "Strong");
    assert_eq!(s.stylesheets(), &["a.css".to_owned(), "b.css".to_owned()]);
    let t = Settings::resolve(&[strong, weak]);
    assert_eq!(t.site_name(), "Weak");
    let d = Settings::resolve(&[]);
    assert_eq!(d.site_name(), "Untitled Git");
}

#[test]
fn snapshot_format_and_name() {
    let enabled = vec![ArchiveFormat::TarGz, ArchiveFormat::Zip];
    assert_eq!(select_format(Some("zip"), &enabled).unwrap(), ArchiveFormat::Zip);
    assert!(select_format(Some("nonsense"), &enabled).is_err());
    assert_eq!(snapshot_name("repo.git", "HEAD", "abc1234", &["heads"]), "repo-HEAD-abc1234");
}

#[test]
fn object_resolution_rules() {
    match resolution(Some("abc"), None, None).unwrap() {
        Resolution::ById { id } => assert_eq!(id, "abc"),
        _ => panic!("expected a lookup by id"),
    }
    match resolution(None, Some("main"), Some("dir//")).unwrap() {
        Resolution::ByBasePath { base, file_name } => {
            assert_eq!(base, "main");
            assert_eq!(file_name, "dir");
        }
        _ => panic!("expected a base+path lookup"),
    }
    match resolution(Some("0"), None, None) {
        Err(DomainError::Invalid(m)) => assert_eq!(m, "Not enough information to find object"),
        _ => panic!("a Perl-false hash names nothing"),
    }
    assert_eq!(target_action(ObjectKind::Tree), Action::Tree);
}

#[test]
fn std_lines_match_str_lines() {
    for s in ["", "a", "a\n", "a\r\nb", "a\n\nb\n", "x\r", "\n\n"].iter() {
        let ours = std_lines_of(s);
        let std: Vec<String> = s.lines().map(|l| l.to_owned()).collect();
        assert_eq!(ours, std, "lines of {:?}", s);
    }
}

use gitweb_domain::model::blob::{Blob, BlobDisplay};
use gitweb_domain::model::change::ChangeStatus;
use gitweb_domain::model::commitdiff::{diff_base, DiffBase};
use gitweb_domain::model::content_type::PlainHeaders;
use gitweb_domain::model::encoding::{to_utf8, FallbackEncoding};
use gitweb_domain::model::feed::{comment_lines, feed_window};
use gitweb_domain::model::file_mode::FileMode;
use gitweb_domain::model::grep_pattern::GrepPattern;
use gitweb_domain::model::object_id::ObjectId;
use gitweb_domain::model::patch::{FilePatch, FileSelection, Patch};
use gitweb_domain::model::pickaxe_pattern::PickaxePattern;
use gitweb_domain::model::search_snippet::highlight_full;
use gitweb_domain::usecase::patch::split_message;

fn hex(c: char) -> ObjectId {
    ObjectId::parse(&std::iter::repeat(c).take(40).collect::<String>()).unwrap()
}

fn file_patch(status: ChangeStatus, from: (&str, u32, char), to: (&str, u32, char), hunks: Option<Vec<&str>>) -> FilePatch {
    FilePatch::new(
        status,
        None,
        FileMode::new(from.1),
        FileMode::new(to.1),
        from.0.to_owned(),
        to.0.to_owned(),
        hex(from.2),
        hex(to.2),
        hunks.map(|h| h.into_iter().map(str::to_owned).collect()),
    )
}

#[test]
fn feed_window_keeps_twenty_then_recent() {
    let now = 1_000_000;
    let old = now - 200_000;
    assert_eq!(feed_window(&[old; 5], now), 5);
    let mut epochs = vec![old; 25];
    assert_eq!(feed_window(&epochs, now), 20);
    epochs[20] = now - 100;
    epochs[21] = now - 100;
    assert_eq!(feed_window(&epochs, now), 22);
    assert_eq!(feed_window(&[], now), 0);
}

#[test]
fn comment_lines_drop_trailing_blanks() {
    assert_eq!(comment_lines("subject\n\nbody\n\n\n"), vec!["subject", "", "body"]);
    assert_eq!(comment_lines(""), Vec::<String>::new());
    assert_eq!(comment_lines("one"), vec!["one"]);
}

#[test]
fn split_message_subject_and_body() {
    let (subject, body) = split_message("\n\nFix it\n\n\nfirst\n\nsecond\n\n");
    assert_eq!(subject, "Fix it");
    assert_eq!(body, vec!["first", "", "second"]);
    let (subject, body) = split_message("");
    assert_eq!(subject, "");
    assert!(body.is_empty());
    let (subject, body) = split_message("only\n");
    assert_eq!(subject, "only");
    assert!(body.is_empty());
}

#[test]
fn to_utf8_falls_back() {
    assert_eq!(to_utf8("héllo".as_bytes(), FallbackEncoding::Latin1), "héllo");
    assert_eq!(to_utf8(&[0x68, 0xE9], FallbackEncoding::Latin1), "hé");
    assert_eq!(to_utf8(&[0x68, 0xE9], FallbackEncoding::Replacement), "h\u{FFFD}");
}

#[test]
fn blob_binary_and_display() {
    let text = Blob::new(b"plain text\n".to_vec());
    assert!(!text.is_binary());
    assert_eq!(text.display_kind(Some("a.png")), BlobDisplay::Text);
    let bin = Blob::new(vec![0x89, 0x50, 0x00, 0x01]);
    assert!(bin.is_binary());
    assert_eq!(bin.display_kind(Some("logo.png")), BlobDisplay::Image);
    assert_eq!(bin.display_kind(Some("data.bin")), BlobDisplay::Binary);
    assert_eq!(bin.display_kind(None), BlobDisplay::Binary);
    let mut late = vec![b'a'; 9000];
    late[8500] = 0;
    assert!(!Blob::new(late).is_binary());
}

#[test]
fn plain_headers_follow_content() {
    let h = PlainHeaders::resolve(Some("README"), false, "abc", Some("utf-8"), true);
    assert_eq!(h.content_type(), "text/plain; charset=utf-8");
    assert_eq!(h.content_disposition(), "inline; filename=\"README\"");
    let h = PlainHeaders::resolve(None, false, "abc", None, false);
    assert_eq!(h.content_type(), "text/plain");
    assert_eq!(h.content_disposition(), "inline; filename=\"abc.txt\"");
    let h = PlainHeaders::resolve(Some("x.gif"), true, "abc", None, true);
    assert_eq!(h.content_type(), "image/gif");
    assert_eq!(h.content_disposition(), "inline; filename=\"x.gif\"");
    let h = PlainHeaders::resolve(None, true, "abc", None, true);
    assert_eq!(h.content_type(), "application/octet-stream");
    assert_eq!(h.content_disposition(), "attachment; filename=\"abc\"");
    let h = PlainHeaders::resolve(Some("a.jpeg"), true, "abc", None, false);
    assert_eq!(h.content_type(), "image/jpeg");
}

#[test]
fn diff_base_prefers_explicit_then_first_parent() {
    let explicit = hex('e');
    assert_eq!(diff_base(&[hex('1'), hex('2')], Some(&explicit)), DiffBase::Commit(hex('e')));
    assert_eq!(diff_base(&[hex('1'), hex('2')], None), DiffBase::Commit(hex('1')));
    assert_eq!(diff_base(&[], None), DiffBase::EmptyTree);
}

#[test]
fn patch_renders_modified_file() {
    let f = file_patch(ChangeStatus::Modified, ("f", 0o100644, '2'), ("f", 0o100644, '3'), Some(vec!["@@ -1 +1 @@", "-old", "+new"]));
    assert_eq!(f.line_counts(), Some((1, 1)));
    let p = Patch::new(vec![f]);
    assert_eq!(
        p.render_abbreviated(7),
        "diff --git a/f b/f\nindex 2222222..3333333 100644\n--- a/f\n+++ b/f\n@@ -1 +1 @@\n-old\n+new\n"
    );
    assert!(p.render().starts_with(&format!("diff --git a/f b/f\nindex {}..{} 100644\n", hex('2').as_str(), hex('3').as_str())));
}

#[test]
fn patch_renders_created_deleted_and_binary() {
    let created = file_patch(ChangeStatus::Added, ("n", 0, '0'), ("n", 0o100755, '4'), Some(vec!["@@ -0,0 +1 @@", "+x"]));
    assert_eq!(
        Patch::new(vec![created]).render_abbreviated(4),
        "diff --git a/n b/n\nnew file mode 100755\nindex 0000..4444\n--- /dev/null\n+++ b/n\n@@ -0,0 +1 @@\n+x\n"
    );
    let deleted = file_patch(ChangeStatus::Deleted, ("d", 0o100644, '5'), ("d", 0, '0'), None);
    assert!(deleted.is_binary());
    assert_eq!(deleted.line_counts(), None);
    assert_eq!(
        Patch::new(vec![deleted]).render_abbreviated(4),
        "diff --git a/d b/d\ndeleted file mode 100644\nindex 5555..0000\nBinary files a/d and /dev/null differ\n"
    );
}

#[test]
fn patch_renders_rename_and_mode_change() {
    let renamed = FilePatch::new(
        ChangeStatus::Renamed,
        Some(100),
        FileMode::new(0o100644),
        FileMode::new(0o100755),
        "old".to_owned(),
        "new".to_owned(),
        hex('6'),
        hex('6'),
        Some(vec![]),
    );
    assert_eq!(
        renamed.render(Some(7)),
        "diff --git a/old b/new\nold mode 100644\nnew mode 100755\nsimilarity index 100%\nrename from old\nrename to new\n"
    );
    let copied = FilePatch::new(
        ChangeStatus::Copied,
        Some(75),
        FileMode::new(0o100644),
        FileMode::new(0o100644),
        "a".to_owned(),
        "b".to_owned(),
        hex('7'),
        hex('8'),
        Some(vec!["@@ -1 +1 @@".to_owned(), "-p".to_owned(), "+q".to_owned()]),
    );
    assert_eq!(
        copied.render(Some(3)),
        "diff --git a/a b/b\nsimilarity index 75%\ncopy from a\ncopy to b\nindex 777..888 100644\n--- a/a\n+++ b/b\n@@ -1 +1 @@\n-p\n+q\n"
    );
}

#[test]
fn patch_selects_by_path_and_blob() {
    let a = file_patch(ChangeStatus::Modified, ("a", 0o100644, '1'), ("a", 0o100644, '2'), Some(vec![]));
    let b = file_patch(ChangeStatus::Modified, ("b", 0o100644, '1'), ("b", 0o100644, '2'), Some(vec![]));
    let p = Patch::new(vec![a, b]);
    assert!(matches!(p.select_by_to_path("a"), FileSelection::One(f) if f.to_path() == "a"));
    assert!(matches!(p.select_by_to_path("zz"), FileSelection::Missing));
    assert!(matches!(p.select_by_to_oid("2222"), FileSelection::Ambiguous));
    assert!(matches!(p.select_by_to_oid("3"), FileSelection::Missing));
    assert_eq!(p.render_file_abbreviated("b", 7).unwrap(), "diff --git a/b b/b\nindex 1111111..2222222 100644\n--- a/b\n+++ b/b\n");
    assert_eq!(p.render_file_abbreviated("c", 7), None);
}

#[test]
fn grep_and_pickaxe_patterns_validate_expressions() {
    assert!(GrepPattern::new("(", false).is_ok());
    match GrepPattern::new("(", true) {
        Err(DomainError::Invalid(m)) => assert_eq!(m, "search regexp '('"),
        _ => panic!("expected invalid"),
    }
    let g = GrepPattern::new("a+b", true).unwrap();
    assert_eq!(g.raw(), "a+b");
    assert!(g.use_regexp());
    let p = PickaxePattern::new("x", false).unwrap();
    assert_eq!(p.raw(), "x");
    assert!(!p.use_regexp());
    assert!(PickaxePattern::new("[", true).is_err());
}

#[test]
fn highlight_full_keeps_whole_parts() {
    let pattern = SearchPattern::new("needle", false).unwrap();
    let line = "a very long line before the NEEDLE and a very long line after it, longer than any chop";
    let s = highlight_full(line, &pattern).unwrap();
    assert_eq!(s.lead(), "a very long line before the ");
    assert_eq!(s.matched(), "NEEDLE");
    assert_eq!(s.trail(), " and a very long line after it, longer than any chop");
    assert!(highlight_full("nothing", &pattern).is_none());
}

#[test]
fn project_email_privacy_override_taken() {
    let mut o = ProjectOverrides::new();
    o.set(FeatureName::EmailPrivacy, Some("1".to_owned()));
    let s = Settings::builtin().for_project(&o);
    assert_eq!(s.feature(FeatureName::EmailPrivacy).default_options(), &["1".to_owned()]);
    assert!(s.feature(FeatureName::EmailPrivacy).enabled());
    let mut off = ProjectOverrides::new();
    off.set(FeatureName::EmailPrivacy, Some("false".to_owned()));
    let t = Settings::builtin().for_project(&off);
    assert_eq!(t.feature(FeatureName::EmailPrivacy).default_options(), &["0".to_owned()]);
}

#[test]
fn feature_keys_round_trip() {
    for n in FeatureName::all() {
        assert_eq!(FeatureName::from_key(n.as_key()), Some(n));
    }
    assert_eq!(FeatureName::from_key("no-such-feature"), None);
}

#[test]
fn untabify_expands_to_tab_stops() {
    assert_eq!(untabify("\tx"), "        x");
    assert_eq!(untabify("ab\tc"), "ab      c");
    assert_eq!(untabify("12345678\ty"), "12345678        y");
    let once = untabify("a\tb\t\tc");
    assert!(!once.contains('\t'));
    assert_eq!(untabify(&once), once);
    assert_eq!(once.replace(' ', ""), "abc");
    assert_eq!(untabify("no tabs here"), "no tabs here");
}

#[test]
fn escape_text_matches_regex_escape() {
    for s in ["a.b+c", "(x|y)*?", "[1-2]{3}^$#&~\\", "plain", "ümlaut.", ""] {
        assert_eq!(escape_text(s), regex::escape(s));
    }
    assert_eq!(escape_text("a.b"), "a\\.b");
}

#[test]
fn unescape_plus_only_token() {
    assert_eq!(unescape("a+b+c"), "a b c");
    assert_eq!(unescape("\u{e9}+\u{fc}"), "\u{e9} \u{fc}");
    assert_eq!(unescape("++"), "  ");
}

#[test]
fn timestamp_leap_days() {
    assert_eq!(Timestamp::new(951_782_400, "+0000").utc_date(), "2000-02-29");
    assert_eq!(Timestamp::new(4_107_542_400, "+0000").utc_date(), "2100-03-01");
    assert_eq!(Timestamp::new(4_107_456_000, "+0000").utc_date(), "2100-02-28");
    assert_eq!(Timestamp::new(-62_162_035_200, "+0000").utc_date(), "0000-03-01");
}

#[test]
fn empty_layer_changes_nothing() {
    let mut layer = SettingsLayer::default();
    layer.stylesheets = Some(vec!["a.css".to_owned()]);
    layer.omit_owner = Some(true);
    layer.features.insert(FeatureName::Blame, FeatureLayer { default: Some(vec!["1".to_owned()]), overridable: None });
    let once = Settings::resolve(&[layer.clone()]);
    let again = Settings::resolve(&[layer, SettingsLayer::default()]);
    assert_eq!(once, again);
    assert_eq!(once.stylesheets(), &["a.css".to_owned()]);
    assert!(once.omit_owner());
    assert!(once.feature(FeatureName::Blame).enabled());
    let base = Settings::builtin();
    assert_eq!(once.site_name(), base.site_name());
    assert_eq!(once.feature(FeatureName::Search).default_options(), base.feature(FeatureName::Search).default_options());
}

#[test]
fn feature_layers_keep_one_entry_per_feature() {
    let mut layers = FeatureLayers::new();
    layers.insert(FeatureName::Blame, FeatureLayer { default: Some(vec!["1".to_owned()]), overridable: None });
    layers.insert(FeatureName::Grep, FeatureLayer { default: None, overridable: Some(true) });
    layers.insert(FeatureName::Blame, FeatureLayer { default: Some(vec!["0".to_owned()]), overridable: Some(true) });
    assert_eq!(layers.entries().len(), 2);
    assert_eq!(layers.entries()[0].0, FeatureName::Grep);
    assert_eq!(layers.entries()[1].0, FeatureName::Blame);
    assert_eq!(layers.entries()[1].1.default, Some(vec!["0".to_owned()]));
    let mut layer = SettingsLayer::default();
    layer.features = layers.clone();
    let s = Settings::resolve(&[layer]);
    assert!(!s.feature(FeatureName::Blame).enabled());
    assert!(s.feature(FeatureName::Blame).is_overridable());
    assert!(s.feature(FeatureName::Grep).is_overridable());
}

#[test]
fn unknown_feature_keys() {
    for key in ["show_sizes", "remote-heads", "Blame", ""] {
        assert_eq!(FeatureName::from_key(key), None);
    }
}

#[test]
fn signature_parse_failures() {
    assert!(Signature::parse("Nobody <n@example.com>").is_none());
    assert!(Signature::parse("N <e> 123").is_none());
    assert!(Signature::parse("N <e> 12a +0000").is_none());
    assert!(Signature::parse("N <e> 99999999999999999999 +0000").is_none());
    assert!(Signature::parse("N <e> 12 +0000").is_some());
}

#[test]
fn timestamp_zone_rules() {
    assert_eq!(Timestamp::new(77, ""), Timestamp::new(77, "-0000"));
    assert_eq!(Timestamp::new(77, "").timezone(), "-0000");
    assert_eq!(Timestamp::from_epoch(77), Timestamp::new(77, ""));
    assert_eq!(Timestamp::new(77, "+0130").epoch(), 77);
    assert_eq!(Timestamp::new(0, "bogus").iso_tz(), "1970-01-01 00:00:00 bogus");
}

#[test]
fn snapshot_name_is_file_safe() {
    let r = snapshot_name("group/my proj.git", "v1/x", "abc1234", &[]);
    assert!(r.chars().all(|c| c.is_ascii_alphanumeric() || c == '_' || c == '.' || c == '-'));
    assert!(!r.contains('/'));
    assert!(r.starts_with("myproj-"));
}
