//! Snapshot archive formats and the rules `git_snapshot` runs before
//! streaming.
//!
//! gitweb's `%known_snapshot_formats` is the fixed table of archive formats
//! ([`ArchiveFormat`]); `filter_snapshot_fmts` ([`enabled_formats`]) resolves
//! the configured tokens through the legacy aliases and drops unknown or
//! disabled ones; `git_snapshot`'s validation cascade ([`select_format`])
//! picks the format for a request; and `snapshot_name` ([`snapshot_name`]) is
//! the `project-version` base name of the download.

use vstd::prelude::*;
use crate::error::{forbidden, invalid, DomainError, ErrorView};
use crate::text::{
    chars_of, ends_with, has_prefix, has_suffix, is_alnum, is_hex, is_digit, is_lower, push_all,
    push_str, slice, starts_with, str_eq, string_of, alnum, digit, hex, lower, chars_eq,
};

verus! {

/// A snapshot archive format — one entry of `%known_snapshot_formats`.
#[derive(Debug, Clone, Copy, PartialEq, Eq, Structural)]
pub enum ArchiveFormat {
    /// gzip-compressed tar (`tgz`).
    TarGz,
    /// bzip2-compressed tar (`tbz2`).
    TarBz2,
    /// xz-compressed tar (`txz`) — statically disabled.
    TarXz,
    /// zip (`zip`).
    Zip,
}

/// The format token (`sf` value and config name).
pub open spec fn format_key(f: ArchiveFormat) -> Seq<char> {
    match f {
        ArchiveFormat::TarGz => "tgz"@,
        ArchiveFormat::TarBz2 => "tbz2"@,
        ArchiveFormat::TarXz => "txz"@,
        ArchiveFormat::Zip => "zip"@,
    }
}

/// The download file-name suffix.
pub open spec fn format_suffix(f: ArchiveFormat) -> Seq<char> {
    match f {
        ArchiveFormat::TarGz => ".tar.gz"@,
        ArchiveFormat::TarBz2 => ".tar.bz2"@,
        ArchiveFormat::TarXz => ".tar.xz"@,
        ArchiveFormat::Zip => ".zip"@,
    }
}

/// The `Content-Type` of a format.
pub open spec fn format_content_type(f: ArchiveFormat) -> Seq<char> {
    match f {
        ArchiveFormat::TarGz => "application/x-gzip"@,
        ArchiveFormat::TarBz2 => "application/x-bzip2"@,
        ArchiveFormat::TarXz => "application/x-xz"@,
        ArchiveFormat::Zip => "application/x-zip"@,
    }
}

/// The human label of a format.
pub open spec fn format_display(f: ArchiveFormat) -> Seq<char> {
    match f {
        ArchiveFormat::TarGz => "tar.gz"@,
        ArchiveFormat::TarBz2 => "tar.bz2"@,
        ArchiveFormat::TarXz => "tar.xz"@,
        ArchiveFormat::Zip => "zip"@,
    }
}

/// The known format whose token is `key`.
pub open spec fn format_for_key(key: Seq<char>) -> Option<ArchiveFormat> {
    if key == "tgz"@ {
        Some(ArchiveFormat::TarGz)
    } else if key == "tbz2"@ {
        Some(ArchiveFormat::TarBz2)
    } else if key == "txz"@ {
        Some(ArchiveFormat::TarXz)
    } else if key == "zip"@ {
        Some(ArchiveFormat::Zip)
    } else {
        None
    }
}

/// A configured token through gitweb's `%known_snapshot_format_aliases`: the
/// long names map to their format, the legacy junk names to nothing, and any
/// other token to the format it names, if any.
pub open spec fn alias_of(token: Seq<char>) -> Option<ArchiveFormat> {
    if token == "gzip"@ {
        Some(ArchiveFormat::TarGz)
    } else if token == "bzip2"@ {
        Some(ArchiveFormat::TarBz2)
    } else if token == "xz"@ {
        Some(ArchiveFormat::TarXz)
    } else if token == "x-gzip"@ || token == "gz"@ || token == "x-bzip2"@ || token == "bz2"@
        || token == "x-zip"@ || token.len() == 0 {
        None
    } else {
        format_for_key(token)
    }
}

impl ArchiveFormat {
    /// The format token.
    pub fn key(self) -> (r: &'static str)
        ensures
            r@ == format_key(self),
    {
        match self {
            ArchiveFormat::TarGz => "tgz",
            ArchiveFormat::TarBz2 => "tbz2",
            ArchiveFormat::TarXz => "txz",
            ArchiveFormat::Zip => "zip",
        }
    }

    /// The download file-name suffix.
    pub fn suffix(self) -> (r: &'static str)
        ensures
            r@ == format_suffix(self),
    {
        match self {
            ArchiveFormat::TarGz => ".tar.gz",
            ArchiveFormat::TarBz2 => ".tar.bz2",
            ArchiveFormat::TarXz => ".tar.xz",
            ArchiveFormat::Zip => ".zip",
        }
    }

    /// The `Content-Type` the archive is served under.
    pub fn content_type(self) -> (r: &'static str)
        ensures
            r@ == format_content_type(self),
    {
        match self {
            ArchiveFormat::TarGz => "application/x-gzip",
            ArchiveFormat::TarBz2 => "application/x-bzip2",
            ArchiveFormat::TarXz => "application/x-xz",
            ArchiveFormat::Zip => "application/x-zip",
        }
    }

    /// The human label shown in snapshot links.
    pub fn display(self) -> (r: &'static str)
        ensures
            r@ == format_display(self),
    {
        match self {
            ArchiveFormat::TarGz => "tar.gz",
            ArchiveFormat::TarBz2 => "tar.bz2",
            ArchiveFormat::TarXz => "tar.xz",
            ArchiveFormat::Zip => "zip",
        }
    }

    /// Whether gitweb ships this format disabled (`txz` only).
    pub fn is_disabled(self) -> (r: bool)
        ensures
            r == (self is TarXz),
    {
        matches!(self, ArchiveFormat::TarXz)
    }

    /// The known format whose token is `key`; aliases are not resolved here.
    pub fn from_key(key: &str) -> (r: Option<Self>)
        ensures
            r == format_for_key(key@),
    {
        if str_eq(key, "tgz") {
            Some(ArchiveFormat::TarGz)
        } else if str_eq(key, "tbz2") {
            Some(ArchiveFormat::TarBz2)
        } else if str_eq(key, "txz") {
            Some(ArchiveFormat::TarXz)
        } else if str_eq(key, "zip") {
            Some(ArchiveFormat::Zip)
        } else {
            None
        }
    }
}

fn resolve_alias(token: &str) -> (r: Option<ArchiveFormat>)
    ensures
        r == alias_of(token@),
{
    if str_eq(token, "gzip") {
        return Some(ArchiveFormat::TarGz);
    }
    if str_eq(token, "bzip2") {
        return Some(ArchiveFormat::TarBz2);
    }
    if str_eq(token, "xz") {
        return Some(ArchiveFormat::TarXz);
    }
    let chars: Vec<char> = chars_of(token);
    if str_eq(token, "x-gzip") || str_eq(token, "gz") || str_eq(token, "x-bzip2") || str_eq(
        token,
        "bz2",
    ) || str_eq(token, "x-zip") || chars.len() == 0 {
        return None;
    }
    ArchiveFormat::from_key(token)
}

/// gitweb's `filter_snapshot_fmts` over the configured tokens, in order.
pub open spec fn enabled_spec(configured: Seq<String>) -> Seq<ArchiveFormat>
    decreases configured.len(),
{
    if configured.len() == 0 {
        seq![]
    } else {
        let before = enabled_spec(configured.drop_last());
        match alias_of(configured.last()@) {
            Some(f) => if f is TarXz {
                before
            } else {
                before.push(f)
            },
            None => before,
        }
    }
}

/// The site's `@snapshot_fmts`: each configured token through the aliases,
/// keeping the known, not-disabled formats in configuration order.
pub fn enabled_formats(configured: &[String]) -> (r: Vec<ArchiveFormat>)
    ensures
        r@ == enabled_spec(configured@),
{
    let mut r: Vec<ArchiveFormat> = Vec::new();
    let mut i: usize = 0;
    assert(configured@.take(0) =~= Seq::<String>::empty());
    while i < configured.len()
        invariant
            0 <= i <= configured@.len(),
            r@ == enabled_spec(configured@.take(i as int)),
        decreases configured.len() - i,
    {
        assert(configured@.take(i + 1).drop_last() =~= configured@.take(i as int));
        assert(configured@.take(i + 1).last() == configured@[i as int]);
        if let Some(f) = resolve_alias(configured[i].as_str()) {
            if !f.is_disabled() {
                r.push(f);
            }
        }
        i += 1;
    }
    assert(configured@.take(configured.len() as int) =~= configured@);
    r
}

/// A non-empty run of ASCII lowercase letters and digits (`^[a-z0-9]+$`).
pub open spec fn format_token(t: Seq<char>) -> bool {
    t.len() > 0 && forall|i: int| 0 <= i < t.len() ==> (is_lower(#[trigger] t[i]) || is_digit(t[i]))
}

/// `git_snapshot`'s format cascade: no enabled format is 403 "Snapshots not
/// allowed"; an absent or empty request is the first enabled format; a
/// malformed token is 400 "Invalid snapshot format parameter"; an unknown one
/// 400 "Unknown snapshot format"; a disabled one 403 "Snapshot format not
/// allowed"; one not enabled here 403 "Unsupported snapshot format".
pub open spec fn select_outcome(requested: Option<Seq<char>>, enabled: Seq<ArchiveFormat>) -> Result<ArchiveFormat, ErrorView> {
    if enabled.len() == 0 {
        Err(ErrorView::Forbidden("Snapshots not allowed"@))
    } else {
        match requested {
            None => Ok(enabled[0]),
            Some(t) => if t.len() == 0 {
                Ok(enabled[0])
            } else if !format_token(t) {
                Err(ErrorView::Invalid("Invalid snapshot format parameter"@))
            } else {
                match format_for_key(t) {
                    None => Err(ErrorView::Invalid("Unknown snapshot format"@)),
                    Some(f) => if f is TarXz {
                        Err(ErrorView::Forbidden("Snapshot format not allowed"@))
                    } else if !enabled.contains(f) {
                        Err(ErrorView::Forbidden("Unsupported snapshot format"@))
                    } else {
                        Ok(f)
                    },
                }
            },
        }
    }
}

fn is_format_token(token: &Vec<char>) -> (r: bool)
    ensures
        r == format_token(token@),
{
    if token.len() == 0 {
        return false;
    }
    let mut i: usize = 0;
    while i < token.len()
        invariant
            0 <= i <= token.len(),
            forall|j: int| 0 <= j < i ==> (is_lower(#[trigger] token@[j]) || is_digit(token@[j])),
        decreases token.len() - i,
    {
        if !(lower(token[i]) || digit(token[i])) {
            assert(!(is_lower(token@[i as int]) || is_digit(token@[i as int])));
            return false;
        }
        i += 1;
    }
    true
}

fn contains_format(enabled: &[ArchiveFormat], f: ArchiveFormat) -> (r: bool)
    ensures
        r == enabled@.contains(f),
{
    let mut i: usize = 0;
    while i < enabled.len()
        invariant
            0 <= i <= enabled@.len(),
            forall|j: int| 0 <= j < i ==> enabled@[j] != f,
        decreases enabled.len() - i,
    {
        if enabled[i] == f {
            assert(enabled@[i as int] == f);
            return true;
        }
        i += 1;
    }
    false
}

/// Chooses the archive format for a request (see [`select_outcome`]).
pub fn select_format(requested: Option<&str>, enabled: &[ArchiveFormat]) -> (r: Result<ArchiveFormat, DomainError>)
    ensures
        match select_outcome(
            match requested {
                Some(s) => Some(s@),
                None => None,
            },
            enabled@,
        ) {
            Ok(f) => r == Ok::<ArchiveFormat, DomainError>(f),
            Err(e) => r matches Err(x) && x@ == e,
        },
{
    if enabled.len() == 0 {
        return Err(forbidden("Snapshots not allowed"));
    }
    let first: ArchiveFormat = enabled[0];
    let token: &str = match requested {
        None => return Ok(first),
        Some(value) => value,
    };
    let chars: Vec<char> = chars_of(token);
    if chars.len() == 0 {
        return Ok(first);
    }
    if !is_format_token(&chars) {
        return Err(invalid("Invalid snapshot format parameter"));
    }
    let format: ArchiveFormat = match ArchiveFormat::from_key(token) {
        Some(f) => f,
        None => return Err(invalid("Unknown snapshot format")),
    };
    if format.is_disabled() {
        return Err(forbidden("Snapshot format not allowed"));
    }
    if !contains_format(enabled, format) {
        return Err(forbidden("Unsupported snapshot format"));
    }
    Ok(format)
}

/// gitweb's filename alphabet `[:alnum:]_.-`.
pub open spec fn filename_char(c: char) -> bool {
    is_alnum(c) || c == '_' || c == '.' || c == '-'
}

/// `s` with every `from` turned into `to`.
pub open spec fn replaced(s: Seq<char>, from: char, to: char) -> Seq<char> {
    s.map_values(|c: char| if c == from { to } else { c })
}

/// `s` with the characters outside the filename alphabet dropped.
pub open spec fn filename_only(s: Seq<char>) -> Seq<char>
    decreases s.len(),
{
    if s.len() == 0 {
        seq![]
    } else if filename_char(s.last()) {
        filename_only(s.drop_last()).push(s.last())
    } else {
        filename_only(s.drop_last())
    }
}

/// gitweb's `sanitize_for_filename`: slashes to dashes, then the filename
/// alphabet only.
pub open spec fn sanitized_name(s: Seq<char>) -> Seq<char> {
    filename_only(replaced(s, '/', '-'))
}

/// The version sanitization: slashes to dots, then the filename alphabet only.
pub open spec fn sanitized_version(s: Seq<char>) -> Seq<char> {
    filename_only(replaced(s, '/', '.'))
}

fn sanitize(s: &Vec<char>, slash: char) -> (r: Vec<char>)
    ensures
        r@ == filename_only(replaced(s@, '/', slash)),
{
    let ghost t = replaced(s@, '/', slash);
    let mut r: Vec<char> = Vec::new();
    let mut i: usize = 0;
    while i < s.len()
        invariant
            0 <= i <= s.len(),
            t == replaced(s@, '/', slash),
            r@ == filename_only(t.take(i as int)),
        decreases s.len() - i,
    {
        let c: char = if s[i] == '/' {
            slash
        } else {
            s[i]
        };
        assert(t[i as int] == c);
        assert(t.take(i + 1).drop_last() == t.take(i as int));
        assert(t.take(i + 1).last() == c);
        if alnum(c) || c == '_' || c == '.' || c == '-' {
            r.push(c);
        }
        i += 1;
    }
    assert(t.take(s.len() as int) == t);
    r
}

/// gitweb's `s,([^/])/*\.git$,$1,`: a trailing `.git` (and the slashes before
/// it) removed, unless nothing but slashes would remain.
pub open spec fn without_dot_git(p: Seq<char>) -> Seq<char> {
    if has_suffix(p, ".git"@) {
        let head = p.take(p.len() - 4);
        let trimmed = head.take(head.len() - trailing_slashes(head));
        if trimmed.len() == 0 {
            p
        } else {
            trimmed
        }
    } else {
        p
    }
}

/// The number of trailing slashes of `s`.
pub open spec fn trailing_slashes(s: Seq<char>) -> nat
    decreases s.len(),
{
    if s.len() > 0 && s.last() == '/' {
        1 + trailing_slashes(s.drop_last())
    } else {
        0
    }
}

/// The last `/`-separated component of `p` (`basename`).
pub open spec fn last_component(p: Seq<char>) -> Seq<char>
    decreases p.len(),
{
    if p.len() == 0 {
        seq![]
    } else if p.last() == '/' {
        seq![]
    } else {
        last_component(p.drop_last()).push(p.last())
    }
}

/// `h` is all hexadecimal and non-empty (`/^[0-9a-fA-F]+$/`).
pub open spec fn all_hex_nonempty(h: Seq<char>) -> bool {
    h.len() > 0 && forall|i: int| 0 <= i < h.len() ==> is_hex(#[trigger] h[i])
}

/// Whether `dir` is one of `refs`.
pub open spec fn listed(refs: Seq<&str>, dir: Seq<char>) -> bool {
    exists|i: int| 0 <= i < refs.len() && #[trigger] refs[i]@ == dir
}

/// gitweb's `m!^refs/($strip_refs|remotes)/(.*)$!`: a branch or remote ref
/// stripped to its display version, the directory prepended for one outside
/// `heads`/`remotes`.
pub open spec fn stripped_branch(hash: Seq<char>, refs: Seq<&str>) -> Option<Seq<char>> {
    if !has_prefix(hash, "refs/"@) {
        None
    } else {
        let rest = hash.skip(5);
        match crate::text::first_index_from(rest, '/', 0) {
            None => None,
            Some(k) => {
                let dir = rest.take(k);
                let name = rest.skip(k + 1);
                if !(dir == "remotes"@ || listed(refs, dir)) {
                    None
                } else {
                    let d = sanitized_name(dir);
                    if d.len() == 0 || d == "heads"@ || d == "remotes"@ {
                        Some(name)
                    } else {
                        Some(d + "-"@ + name)
                    }
                }
            },
        }
    }
}

/// gitweb's `$ver` before sanitization: an id abbreviates (a short one stays),
/// a tag is its bare name, anything else keeps its (stripped) text and
/// appends the short id.
pub open spec fn version_of(hash: Seq<char>, short: Seq<char>, refs: Seq<&str>) -> Seq<char> {
    if all_hex_nonempty(hash) {
        if hash.len() > 7 {
            short
        } else {
            hash
        }
    } else if has_prefix(hash, "refs/tags/"@) {
        hash.skip(10)
    } else {
        let base = match stripped_branch(hash, refs) {
            Some(b) => b,
            None => hash,
        };
        base + "-"@ + short
    }
}

/// gitweb's `snapshot_name`: the sanitized project basename (trailing `.git`
/// removed), a dash, and the sanitized version.
pub open spec fn snapshot_name_of(project: Seq<char>, hash: Seq<char>, short: Seq<char>, refs: Seq<&str>) -> Seq<char> {
    sanitized_name(last_component(without_dot_git(project))) + "-"@ + sanitized_version(
        version_of(hash, short, refs),
    )
}

fn strip_dot_git(p: &Vec<char>) -> (r: Vec<char>)
    ensures
        r@ == without_dot_git(p@),
{
    let suffix: Vec<char> = chars_of(".git");
    proof {
        reveal_strlit(".git");
    }
    if !ends_with(p, &suffix) {
        return slice(p, 0, p.len());
    }
    let head_len: usize = p.len() - 4;
    let mut end: usize = head_len;
    let ghost head = p@.take(head_len as int);
    assert(head.take(head_len as int) =~= head);
    while end > 0 && p[end - 1] == '/'
        invariant
            0 <= end <= head_len,
            head_len == p.len() - 4,
            head == p@.take(head_len as int),
            trailing_slashes(head) == (head_len - end) + trailing_slashes(head.take(end as int)),
        decreases end,
    {
        assert(head.take(end as int).drop_last() == head.take(end - 1));
        assert(head.take(end as int).last() == p@[end - 1]);
        end -= 1;
    }
    proof {
        if end > 0 {
            assert(head.take(end as int).last() == p@[end - 1]);
        }
        assert(trailing_slashes(head.take(end as int)) == 0);
        assert(head.take(head.len() - trailing_slashes(head)) =~= p@.take(end as int));
    }
    if end == 0 {
        slice(p, 0, p.len())
    } else {
        slice(p, 0, end)
    }
}

fn basename(p: &Vec<char>) -> (r: Vec<char>)
    ensures
        r@ == last_component(p@),
{
    let mut start: usize = p.len();
    assert(p@.take(start as int) =~= p@);
    assert(p@.skip(start as int) =~= Seq::<char>::empty());
    while start > 0 && p[start - 1] != '/'
        invariant
            0 <= start <= p.len(),
            last_component(p@) == last_component(p@.take(start as int)) + p@.skip(start as int),
        decreases start,
    {
        let ghost t = p@.take(start as int);
        assert(t.drop_last() == p@.take(start - 1));
        assert(t.last() == p@[start - 1]);
        assert(p@.skip(start - 1) =~= seq![p@[start - 1]] + p@.skip(start as int));
        start -= 1;
    }
    proof {
        let t = p@.take(start as int);
        if start > 0 {
            assert(t.last() == p@[start - 1]);
        }
        assert(last_component(t) =~= Seq::<char>::empty());
    }
    assert(last_component(p@) =~= p@.skip(start as int));
    slice(p, start, p.len())
}

fn all_hex_chars(h: &Vec<char>) -> (r: bool)
    ensures
        r == all_hex_nonempty(h@),
{
    if h.len() == 0 {
        return false;
    }
    let mut i: usize = 0;
    while i < h.len()
        invariant
            0 <= i <= h.len(),
            forall|j: int| 0 <= j < i ==> is_hex(#[trigger] h@[j]),
        decreases h.len() - i,
    {
        if !hex(h[i]) {
            return false;
        }
        i += 1;
    }
    true
}

fn is_listed(refs: &[&str], dir: &Vec<char>) -> (r: bool)
    ensures
        r == listed(refs@, dir@),
{
    let mut i: usize = 0;
    while i < refs.len()
        invariant
            0 <= i <= refs@.len(),
            forall|j: int| 0 <= j < i ==> #[trigger] refs@[j]@ != dir@,
        decreases refs.len() - i,
    {
        let candidate: Vec<char> = chars_of(refs[i]);
        if chars_eq(&candidate, dir) {
            return true;
        }
        i += 1;
    }
    false
}

fn strip_branch_ref(hash: &Vec<char>, refs: &[&str]) -> (r: Option<Vec<char>>)
    ensures
        match stripped_branch(hash@, refs@) {
            Some(v) => r matches Some(x) && x@ == v,
            None => r is None,
        },
{
    let prefix: Vec<char> = chars_of("refs/");
    proof {
        reveal_strlit("refs/");
    }
    if !starts_with(hash, &prefix) {
        return None;
    }
    let rest: Vec<char> = slice(hash, 5, hash.len());
    assert(rest@ == hash@.skip(5));
    let k: usize = match crate::text::find_char_from(&rest, '/', 0) {
        Some(k) => k,
        None => return None,
    };
    let dir: Vec<char> = slice(&rest, 0, k);
    let name: Vec<char> = slice(&rest, k + 1, rest.len());
    assert(name@ =~= rest@.skip(k + 1));
    let remotes: Vec<char> = chars_of("remotes");
    if !(chars_eq(&dir, &remotes) || is_listed(refs, &dir)) {
        return None;
    }
    let d: Vec<char> = sanitize(&dir, '-');
    let heads: Vec<char> = chars_of("heads");
    if d.len() == 0 || chars_eq(&d, &heads) || chars_eq(&d, &remotes) {
        Some(name)
    } else {
        let mut out: Vec<char> = d;
        push_str(&mut out, "-");
        push_all(&mut out, &name);
        Some(out)
    }
}

fn version_string(hash: &Vec<char>, short: &Vec<char>, refs: &[&str]) -> (r: Vec<char>)
    ensures
        r@ == version_of(hash@, short@, refs@),
{
    if all_hex_chars(hash) {
        if hash.len() > 7 {
            return slice(short, 0, short.len());
        } else {
            return slice(hash, 0, hash.len());
        }
    }
    let tags: Vec<char> = chars_of("refs/tags/");
    proof {
        reveal_strlit("refs/tags/");
    }
    if starts_with(hash, &tags) {
        return slice(hash, 10, hash.len());
    }
    let mut base: Vec<char> = match strip_branch_ref(hash, refs) {
        Some(b) => b,
        None => slice(hash, 0, hash.len()),
    };
    push_str(&mut base, "-");
    push_all(&mut base, short);
    base
}

/// gitweb's `snapshot_name` (see [`snapshot_name_of`]): `project` is the
/// project path, `hash` the raw `h` parameter, `short_hash` its abbreviated
/// id, and `branch_refs` the ref directories that count as branches.
pub fn snapshot_name(project: &str, hash: &str, short_hash: &str, branch_refs: &[&str]) -> (r: String)
    ensures
        r@ == snapshot_name_of(project@, hash@, short_hash@, branch_refs@),
{
    let p: Vec<char> = chars_of(project);
    let stripped: Vec<char> = strip_dot_git(&p);
    let base: Vec<char> = basename(&stripped);
    let mut out: Vec<char> = sanitize(&base, '-');
    let h: Vec<char> = chars_of(hash);
    let s: Vec<char> = chars_of(short_hash);
    let version: Vec<char> = version_string(&h, &s, branch_refs);
    let v: Vec<char> = sanitize(&version, '.');
    push_str(&mut out, "-");
    push_all(&mut out, &v);
    string_of(out.as_slice())
}

/// The non-format inputs the archive producer needs: the archive's top-level
/// directory (gitweb's `--prefix`, without the trailing slash) and the entry
/// modification time in seconds since the epoch.
#[derive(Debug, Clone, PartialEq, Eq)]
pub struct ArchiveOptions {
    /// The archive's top-level directory — the snapshot base name.
    pub prefix: String,
    /// The modification time stamped on every entry (the commit time, or 0).
    pub modification_time: i64,
}

/// Only characters of the filename alphabet survive the filtering.
proof fn lemma_filename_only_chars(s: Seq<char>)
    ensures
        forall|i: int| 0 <= i < filename_only(s).len() ==> filename_char(#[trigger] filename_only(s)[i]),
    decreases s.len(),
{
    if s.len() > 0 {
        let before = filename_only(s.drop_last());
        lemma_filename_only_chars(s.drop_last());
        if filename_char(s.last()) {
            assert forall|i: int| 0 <= i < filename_only(s).len() implies filename_char(#[trigger] filename_only(s)[i]) by {
                if i < before.len() {
                    assert(filename_only(s)[i] == before[i]);
                }
            }
        }
    }
}

/// A snapshot name is safe as a file name: every character is a letter, a
/// digit, `_`, `.` or `-` (so no `/`), and it starts with the sanitized
/// project base name and a dash.
pub proof fn lemma_snapshot_name_safe(project: Seq<char>, hash: Seq<char>, short: Seq<char>, refs: Seq<&str>)
    ensures
        forall|i: int|
            0 <= i < snapshot_name_of(project, hash, short, refs).len() ==> filename_char(
                #[trigger] snapshot_name_of(project, hash, short, refs)[i],
            ),
        !snapshot_name_of(project, hash, short, refs).contains('/'),
        snapshot_name_of(project, hash, short, refs).take(
            sanitized_name(last_component(without_dot_git(project))).len() as int + 1,
        ) == sanitized_name(last_component(without_dot_git(project))) + "-"@,
{
    reveal_strlit("-");
    let a = sanitized_name(last_component(without_dot_git(project)));
    let b = sanitized_version(version_of(hash, short, refs));
    let r = snapshot_name_of(project, hash, short, refs);
    lemma_filename_only_chars(replaced(last_component(without_dot_git(project)), '/', '-'));
    lemma_filename_only_chars(replaced(version_of(hash, short, refs), '/', '.'));
    assert(r == a + "-"@ + b);
    assert forall|i: int| 0 <= i < r.len() implies filename_char(#[trigger] r[i]) by {
        if i < a.len() {
            assert(r[i] == a[i]);
        } else if i == a.len() {
            assert(r[i] == '-');
        } else {
            assert(r[i] == b[i - a.len() - 1]);
        }
    }
    if r.contains('/') {
        let i = choose|i: int| 0 <= i < r.len() && r[i] == '/';
        assert(filename_char(r[i]));
    }
    assert(r.take(a.len() as int + 1) =~= a + "-"@);
}

/// Text of the filename alphabet passes the sanitization unchanged.
proof fn lemma_sanitize_keeps_safe(s: Seq<char>, to: char)
    requires
        forall|i: int| 0 <= i < s.len() ==> filename_char(#[trigger] s[i]) && s[i] != '/',
    ensures
        filename_only(replaced(s, '/', to)) == s,
    decreases s.len(),
{
    if s.len() > 0 {
        let p = s.drop_last();
        lemma_sanitize_keeps_safe(p, to);
        assert(replaced(s, '/', to).drop_last() =~= replaced(p, '/', to));
        assert(replaced(s, '/', to).last() == s.last());
        assert(p.push(s.last()) =~= s);
    }
}

/// A snapshot of a full object id (more than seven hex digits) is named by
/// the id's abbreviation, not the id: the name is the project's base name, a
/// dash and the abbreviation, so two full ids with the same abbreviation name
/// the same archive, whatever branch directories are configured.
pub proof fn lemma_full_id_named_by_abbreviation(
    project: Seq<char>,
    hash: Seq<char>,
    other: Seq<char>,
    short: Seq<char>,
    refs: Seq<&str>,
    other_refs: Seq<&str>,
)
    requires
        all_hex_nonempty(hash),
        hash.len() > 7,
        all_hex_nonempty(other),
        other.len() > 7,
    ensures
        version_of(hash, short, refs) == short,
        snapshot_name_of(project, hash, short, refs) == snapshot_name_of(project, other, short, other_refs),
        all_hex_nonempty(short) ==> snapshot_name_of(project, hash, short, refs) == sanitized_name(
            last_component(without_dot_git(project)),
        ) + "-"@ + short,
{
    if all_hex_nonempty(short) {
        assert forall|i: int| 0 <= i < short.len() implies filename_char(#[trigger] short[i]) && short[i] != '/' by {
            assert(is_hex(short[i]));
        }
        lemma_sanitize_keeps_safe(short, '.');
    }
}

} // verus!
