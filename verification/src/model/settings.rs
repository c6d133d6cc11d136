//! Resolved global gitweb settings and the value-precedence rule.
//!
//! [`Settings`] is the effective configuration the rest of the app reads.
//! gitweb's config files are Perl that re-assign `our` variables and entries of
//! the `%feature` hash, so the strongest source that sets a value wins. A
//! source here is a partial [`SettingsLayer`], and [`Settings::resolve`]
//! overlays them weakest first on the built-in defaults:
//!   - a scalar's value replaces;
//!   - a list replaces wholesale, never appends;
//!   - a feature's `default` and `override` flag overlay independently.
//!
//! [`Settings::for_project`] then applies one repository's `gitweb.<key>`
//! values to the overridable features, each through its gitweb `feature_*`
//! rule.

use vstd::prelude::*;
use crate::model::request::{all_digits, digits_value};
use crate::text::{chars_of, decimal, decimal_chars, digit, is_digit, is_space, space, str_eq, string_of, trim, trim_chars};

verus! {

/// The texts of a list of strings.
pub open spec fn texts(v: Seq<String>) -> Seq<Seq<char>> {
    v.map_values(|s: String| s@)
}

/// A gitweb feature toggle: one entry of the `%feature` hash — the site-wide
/// option list and whether a per-project `gitweb.<key>` may override it.
#[derive(Debug, Clone, PartialEq, Eq)]
pub struct Feature {
    default: Vec<String>,
    overridable: bool,
}

/// A [`Feature`] seen as its option texts and override flag.
pub struct FeatureView {
    pub default: Seq<Seq<char>>,
    pub overridable: bool,
}

impl View for Feature {
    type V = FeatureView;

    closed spec fn view(&self) -> FeatureView {
        FeatureView { default: texts(self.default@), overridable: self.overridable }
    }
}

/// Perl string truthiness: every string but `""` and `"0"` is true.
pub open spec fn perl_truthy(v: Seq<char>) -> bool {
    v.len() != 0 && v != "0"@
}

/// A feature read as a boolean: its first option is Perl-true; no options is
/// off (gitweb's `gitweb_check_feature`).
pub open spec fn feature_enabled(f: FeatureView) -> bool {
    f.default.len() > 0 && perl_truthy(f.default[0])
}

fn clone_strings(v: &Vec<String>) -> (r: Vec<String>)
    ensures
        texts(r@) == texts(v@),
{
    let mut r: Vec<String> = Vec::new();
    let mut i: usize = 0;
    while i < v.len()
        invariant
            0 <= i <= v.len(),
            texts(r@) == texts(v@).take(i as int),
        decreases v.len() - i,
    {
        let ghost prev = r@;
        r.push(v[i].clone());
        assert(r@ == prev.push(v@[i as int]));
        assert(texts(r@) =~= texts(prev).push(v@[i as int]@));
        i += 1;
        assert(texts(v@).take(i as int) =~= texts(v@).take(i - 1).push(v@[i - 1]@));
    }
    assert(texts(v@).take(v.len() as int) =~= texts(v@));
    r
}

impl Feature {
    /// A feature from its default option list and overridability.
    pub fn new(default: Vec<String>, overridable: bool) -> (r: Self)
        ensures
            r@ == (FeatureView { default: texts(default@), overridable }),
    {
        Feature { default, overridable }
    }

    /// The site-wide default options (gitweb's `$feature{x}{default}`).
    pub fn default_options(&self) -> (r: &[String])
        ensures
            texts(r@) == self@.default,
    {
        self.default.as_slice()
    }

    /// Whether a per-project `gitweb.<key>` may override this feature.
    pub fn is_overridable(&self) -> (r: bool)
        ensures
            r == self@.overridable,
    {
        self.overridable
    }

    /// Whether this feature is on (see [`feature_enabled`]).
    pub fn enabled(&self) -> (r: bool)
        ensures
            r == feature_enabled(self@),
    {
        if self.default.len() == 0 {
            return false;
        }
        assert(texts(self.default@)[0] == self.default@[0]@);
        let first: &str = self.default[0].as_str();
        let chars: Vec<char> = chars_of(first);
        chars.len() != 0 && !str_eq(first, "0")
    }

    fn duplicate(&self) -> (r: Self)
        ensures
            r@ == self@,
    {
        Feature { default: clone_strings(&self.default), overridable: self.overridable }
    }
}

/// The names of gitweb's `%feature` entries.
#[derive(Debug, Clone, Copy, PartialEq, Eq, PartialOrd, Ord, Structural)]
pub enum FeatureName {
    Blame,
    Snapshot,
    Search,
    Grep,
    Pickaxe,
    ShowSizes,
    Pathinfo,
    Forks,
    Actions,
    Ctags,
    Patches,
    Avatar,
    Timed,
    JavascriptActions,
    JavascriptTimezone,
    Highlight,
    RemoteHeads,
    ExtraBranchRefs,
    EmailPrivacy,
}

/// The number of gitweb features.
pub const FEATURE_COUNT: usize = 19;

/// The position of a feature in declaration order.
pub open spec fn feature_index(n: FeatureName) -> int {
    match n {
        FeatureName::Blame => 0,
        FeatureName::Snapshot => 1,
        FeatureName::Search => 2,
        FeatureName::Grep => 3,
        FeatureName::Pickaxe => 4,
        FeatureName::ShowSizes => 5,
        FeatureName::Pathinfo => 6,
        FeatureName::Forks => 7,
        FeatureName::Actions => 8,
        FeatureName::Ctags => 9,
        FeatureName::Patches => 10,
        FeatureName::Avatar => 11,
        FeatureName::Timed => 12,
        FeatureName::JavascriptActions => 13,
        FeatureName::JavascriptTimezone => 14,
        FeatureName::Highlight => 15,
        FeatureName::RemoteHeads => 16,
        FeatureName::ExtraBranchRefs => 17,
        FeatureName::EmailPrivacy => 18,
    }
}

/// Every feature, in declaration order.
pub open spec fn all_features() -> Seq<FeatureName> {
    seq![
        FeatureName::Blame, FeatureName::Snapshot, FeatureName::Search, FeatureName::Grep,
        FeatureName::Pickaxe, FeatureName::ShowSizes, FeatureName::Pathinfo, FeatureName::Forks,
        FeatureName::Actions, FeatureName::Ctags, FeatureName::Patches, FeatureName::Avatar,
        FeatureName::Timed, FeatureName::JavascriptActions, FeatureName::JavascriptTimezone,
        FeatureName::Highlight, FeatureName::RemoteHeads, FeatureName::ExtraBranchRefs,
        FeatureName::EmailPrivacy,
    ]
}

/// The exact gitweb `%feature` key of a feature.
pub open spec fn feature_key(n: FeatureName) -> Seq<char> {
    match n {
        FeatureName::Blame => "blame"@,
        FeatureName::Snapshot => "snapshot"@,
        FeatureName::Search => "search"@,
        FeatureName::Grep => "grep"@,
        FeatureName::Pickaxe => "pickaxe"@,
        FeatureName::ShowSizes => "show-sizes"@,
        FeatureName::Pathinfo => "pathinfo"@,
        FeatureName::Forks => "forks"@,
        FeatureName::Actions => "actions"@,
        FeatureName::Ctags => "ctags"@,
        FeatureName::Patches => "patches"@,
        FeatureName::Avatar => "avatar"@,
        FeatureName::Timed => "timed"@,
        FeatureName::JavascriptActions => "javascript-actions"@,
        FeatureName::JavascriptTimezone => "javascript-timezone"@,
        FeatureName::Highlight => "highlight"@,
        FeatureName::RemoteHeads => "remote_heads"@,
        FeatureName::ExtraBranchRefs => "extra-branch-refs"@,
        FeatureName::EmailPrivacy => "email-privacy"@,
    }
}

/// The first feature of `s` whose key is `key`.
pub open spec fn find_feature(s: Seq<FeatureName>, key: Seq<char>) -> Option<FeatureName>
    decreases s.len(),
{
    if s.len() == 0 {
        None
    } else if feature_key(s[0]) == key {
        Some(s[0])
    } else {
        find_feature(s.drop_first(), key)
    }
}

/// gitweb's per-feature override rule: which `feature_*` sub reads the
/// repository's `gitweb.<key>` value.
#[derive(Debug, Clone, Copy, PartialEq, Eq, Structural)]
pub enum OverrideRule {
    /// `feature_bool` over `config_to_bool`.
    Bool,
    /// `feature_snapshot`: a `,`/white-space list, `none` for none.
    SnapshotList,
    /// `feature_patches` over `config_to_int`.
    Int,
    /// `feature_avatar`: the value verbatim.
    Value,
    /// `feature_extra_branch_refs`: the value split on white space.
    WsList,
}

pub open spec fn rule_of(n: FeatureName) -> Option<OverrideRule> {
    match n {
        FeatureName::Blame | FeatureName::Grep | FeatureName::Pickaxe | FeatureName::ShowSizes
        | FeatureName::Highlight | FeatureName::RemoteHeads | FeatureName::EmailPrivacy => Some(OverrideRule::Bool),
        FeatureName::Snapshot => Some(OverrideRule::SnapshotList),
        FeatureName::Patches => Some(OverrideRule::Int),
        FeatureName::Avatar => Some(OverrideRule::Value),
        FeatureName::ExtraBranchRefs => Some(OverrideRule::WsList),
        _ => None,
    }
}

/// gitweb's built-in `%feature` entry for a feature.
pub open spec fn builtin_feature(n: FeatureName) -> FeatureView {
    match n {
        FeatureName::Blame => FeatureView { default: seq!["0"@], overridable: false },
        FeatureName::Snapshot => FeatureView { default: seq!["tgz"@], overridable: false },
        FeatureName::Search => FeatureView { default: seq!["1"@], overridable: false },
        FeatureName::Grep => FeatureView { default: seq!["1"@], overridable: false },
        FeatureName::Pickaxe => FeatureView { default: seq!["1"@], overridable: false },
        FeatureName::ShowSizes => FeatureView { default: seq!["1"@], overridable: false },
        FeatureName::Pathinfo => FeatureView { default: seq!["0"@], overridable: false },
        FeatureName::Forks => FeatureView { default: seq!["0"@], overridable: false },
        FeatureName::Actions => FeatureView { default: seq![], overridable: false },
        FeatureName::Ctags => FeatureView { default: seq!["0"@], overridable: false },
        FeatureName::Patches => FeatureView { default: seq!["16"@], overridable: false },
        FeatureName::Avatar => FeatureView { default: seq![""@], overridable: false },
        FeatureName::Timed => FeatureView { default: seq!["0"@], overridable: false },
        FeatureName::JavascriptActions => FeatureView { default: seq!["0"@], overridable: false },
        FeatureName::JavascriptTimezone => FeatureView {
            default: seq!["local"@, "gitweb_tz"@, "datetime"@],
            overridable: false,
        },
        FeatureName::Highlight => FeatureView { default: seq!["0"@], overridable: false },
        FeatureName::RemoteHeads => FeatureView { default: seq!["0"@], overridable: false },
        FeatureName::ExtraBranchRefs => FeatureView { default: seq![], overridable: false },
        FeatureName::EmailPrivacy => FeatureView { default: seq!["0"@], overridable: true },
    }
}

fn strings(items: &[&str]) -> (r: Vec<String>)
    ensures
        r@.len() == items@.len(),
        forall|i: int| 0 <= i < items@.len() ==> #[trigger] r@[i]@ == items@[i]@,
{
    let mut r: Vec<String> = Vec::new();
    let mut i: usize = 0;
    while i < items.len()
        invariant
            0 <= i <= items@.len(),
            r@.len() == i,
            forall|j: int| 0 <= j < i ==> #[trigger] r@[j]@ == items@[j]@,
        decreases items.len() - i,
    {
        r.push(items[i].to_owned());
        i += 1;
    }
    r
}

fn opts1(a: &str) -> (r: Vec<String>)
    ensures
        texts(r@) == seq![a@],
{
    let r = vec![a.to_owned()];
    assert(texts(r@) =~= seq![a@]);
    r
}

impl FeatureName {
    /// Every feature gitweb defines, in declaration order.
    pub fn all() -> (r: Vec<FeatureName>)
        ensures
            r@ == all_features(),
    {
        let r = vec![
            FeatureName::Blame, FeatureName::Snapshot, FeatureName::Search, FeatureName::Grep,
            FeatureName::Pickaxe, FeatureName::ShowSizes, FeatureName::Pathinfo,
            FeatureName::Forks, FeatureName::Actions, FeatureName::Ctags, FeatureName::Patches,
            FeatureName::Avatar, FeatureName::Timed, FeatureName::JavascriptActions,
            FeatureName::JavascriptTimezone, FeatureName::Highlight, FeatureName::RemoteHeads,
            FeatureName::ExtraBranchRefs, FeatureName::EmailPrivacy,
        ];
        assert(r@ =~= all_features());
        r
    }

    /// The feature's position in declaration order.
    pub fn index(self) -> (r: usize)
        ensures
            r == feature_index(self),
            r < FEATURE_COUNT,
    {
        match self {
            FeatureName::Blame => 0,
            FeatureName::Snapshot => 1,
            FeatureName::Search => 2,
            FeatureName::Grep => 3,
            FeatureName::Pickaxe => 4,
            FeatureName::ShowSizes => 5,
            FeatureName::Pathinfo => 6,
            FeatureName::Forks => 7,
            FeatureName::Actions => 8,
            FeatureName::Ctags => 9,
            FeatureName::Patches => 10,
            FeatureName::Avatar => 11,
            FeatureName::Timed => 12,
            FeatureName::JavascriptActions => 13,
            FeatureName::JavascriptTimezone => 14,
            FeatureName::Highlight => 15,
            FeatureName::RemoteHeads => 16,
            FeatureName::ExtraBranchRefs => 17,
            FeatureName::EmailPrivacy => 18,
        }
    }

    /// The exact gitweb `%feature` key for this name.
    pub fn as_key(self) -> (r: &'static str)
        ensures
            r@ == feature_key(self),
    {
        match self {
            FeatureName::Blame => "blame",
            FeatureName::Snapshot => "snapshot",
            FeatureName::Search => "search",
            FeatureName::Grep => "grep",
            FeatureName::Pickaxe => "pickaxe",
            FeatureName::ShowSizes => "show-sizes",
            FeatureName::Pathinfo => "pathinfo",
            FeatureName::Forks => "forks",
            FeatureName::Actions => "actions",
            FeatureName::Ctags => "ctags",
            FeatureName::Patches => "patches",
            FeatureName::Avatar => "avatar",
            FeatureName::Timed => "timed",
            FeatureName::JavascriptActions => "javascript-actions",
            FeatureName::JavascriptTimezone => "javascript-timezone",
            FeatureName::Highlight => "highlight",
            FeatureName::RemoteHeads => "remote_heads",
            FeatureName::ExtraBranchRefs => "extra-branch-refs",
            FeatureName::EmailPrivacy => "email-privacy",
        }
    }

    /// The feature whose key is `key`, or `None` for an unknown key.
    pub fn from_key(key: &str) -> (r: Option<Self>)
        ensures
            r == find_feature(all_features(), key@),
    {
        let all: Vec<FeatureName> = FeatureName::all();
        let mut i: usize = 0;
        assert(all@.skip(0) =~= all@);
        while i < all.len()
            invariant
                0 <= i <= all.len(),
                all@ == all_features(),
                find_feature(all@, key@) == find_feature(all@.skip(i as int), key@),
            decreases all.len() - i,
        {
            let n: FeatureName = all[i];
            assert(all@.skip(i as int)[0] == n);
            assert(all@.skip(i as int).drop_first() =~= all@.skip(i + 1));
            if str_eq(n.as_key(), key) {
                return Some(n);
            }
            i += 1;
        }
        None
    }

    fn override_rule(self) -> (r: Option<OverrideRule>)
        ensures
            r == rule_of(self),
    {
        match self {
            FeatureName::Blame | FeatureName::Grep | FeatureName::Pickaxe
            | FeatureName::ShowSizes | FeatureName::Highlight | FeatureName::RemoteHeads
            | FeatureName::EmailPrivacy => Some(
                OverrideRule::Bool,
            ),
            FeatureName::Snapshot => Some(OverrideRule::SnapshotList),
            FeatureName::Patches => Some(OverrideRule::Int),
            FeatureName::Avatar => Some(OverrideRule::Value),
            FeatureName::ExtraBranchRefs => Some(OverrideRule::WsList),
            _ => None,
        }
    }

    fn builtin(self) -> (r: Feature)
        ensures
            r@ == builtin_feature(self),
    {
        let (default, overridable): (Vec<String>, bool) = match self {
            FeatureName::Blame => (opts1("0"), false),
            FeatureName::Snapshot => (opts1("tgz"), false),
            FeatureName::Search => (opts1("1"), false),
            FeatureName::Grep => (opts1("1"), false),
            FeatureName::Pickaxe => (opts1("1"), false),
            FeatureName::ShowSizes => (opts1("1"), false),
            FeatureName::Pathinfo => (opts1("0"), false),
            FeatureName::Forks => (opts1("0"), false),
            FeatureName::Actions => (Vec::new(), false),
            FeatureName::Ctags => (opts1("0"), false),
            FeatureName::Patches => (opts1("16"), false),
            FeatureName::Avatar => (opts1(""), false),
            FeatureName::Timed => (opts1("0"), false),
            FeatureName::JavascriptActions => (opts1("0"), false),
            FeatureName::JavascriptTimezone => {
                let v = strings(&["local", "gitweb_tz", "datetime"]);
                assert(texts(v@) =~= seq!["local"@, "gitweb_tz"@, "datetime"@]);
                (v, false)
            },
            FeatureName::Highlight => (opts1("0"), false),
            FeatureName::RemoteHeads => (opts1("0"), false),
            FeatureName::ExtraBranchRefs => (Vec::new(), false),
            FeatureName::EmailPrivacy => (opts1("0"), true),
        };
        assert(default@.len() == 0 ==> texts(default@) =~= Seq::<Seq<char>>::empty());
        Feature { default, overridable }
    }
}

/// No two entries name the same feature.
pub open spec fn distinct_features(ls: Seq<(FeatureName, FeatureLayer)>) -> bool {
    forall|i: int, j: int| 0 <= i < j < ls.len() ==> (#[trigger] ls[i]).0 != (#[trigger] ls[j]).0
}

/// The entries of `ls` for features other than `n`, in order.
pub open spec fn without_feature(ls: Seq<(FeatureName, FeatureLayer)>, n: FeatureName) -> Seq<(FeatureName, FeatureLayer)>
    decreases ls.len(),
{
    if ls.len() == 0 {
        ls
    } else {
        let before = without_feature(ls.drop_last(), n);
        if ls.last().0 == n {
            before
        } else {
            before.push(ls.last())
        }
    }
}

/// A source's partial contribution to one feature: it may set the default, the
/// override flag, both, or neither — independently.
#[derive(Debug, Clone, Default, PartialEq, Eq)]
pub struct FeatureLayer {
    pub default: Option<Vec<String>>,
    pub overridable: Option<bool>,
}

/// A [`FeatureLayer`] seen through its texts.
pub struct FeatureLayerView {
    pub default: Option<Seq<Seq<char>>>,
    pub overridable: Option<bool>,
}

impl View for FeatureLayer {
    type V = FeatureLayerView;

    open spec fn view(&self) -> FeatureLayerView {
        FeatureLayerView {
            default: match self.default {
                Some(v) => Some(texts(v@)),
                None => None,
            },
            overridable: self.overridable,
        }
    }
}

/// One source's contributions to the features, keyed by feature: at most one
/// entry per feature, in the order they were last set.
#[derive(Debug, PartialEq, Eq)]
pub struct FeatureLayers {
    entries: Vec<(FeatureName, FeatureLayer)>,
}

impl View for FeatureLayers {
    type V = Seq<(FeatureName, FeatureLayer)>;

    closed spec fn view(&self) -> Seq<(FeatureName, FeatureLayer)> {
        self.entries@
    }
}

impl FeatureLayers {
    #[verifier::type_invariant]
    spec fn one_per_feature(&self) -> bool {
        distinct_features(self.entries@)
    }

    /// No contributions.
    pub fn new() -> (r: Self)
        ensures
            r@.len() == 0,
    {
        FeatureLayers { entries: Vec::new() }
    }

    /// Sets the contribution to `name`, replacing any earlier one.
    pub fn insert(&mut self, name: FeatureName, layer: FeatureLayer)
        ensures
            final(self)@ == without_feature(old(self)@, name).push((name, layer)),
    {
        proof {
            use_type_invariant(&*self);
        }
        let ghost old_entries = self.entries@;
        let mut taken = FeatureLayers::new();
        std::mem::swap(&mut taken, self);
        let FeatureLayers { entries: mut rest } = taken;
        let mut kept: Vec<(FeatureName, FeatureLayer)> = Vec::new();
        let ghost mut i: int = 0;
        assert(old_entries.skip(0) =~= old_entries);
        while rest.len() > 0
            invariant
                0 <= i <= old_entries.len(),
                rest@ == old_entries.skip(i),
                distinct_features(old_entries),
                kept@ == without_feature(old_entries.take(i), name),
                distinct_features(kept@),
                forall|k: int| 0 <= k < kept@.len() ==> (#[trigger] kept@[k]).0 != name,
                forall|k: int, j: int|
                    0 <= k < kept@.len() && i <= j < old_entries.len() ==> (#[trigger] kept@[k]).0
                        != (#[trigger] old_entries[j]).0,
            decreases rest.len(),
        {
            assert(old_entries.take(i + 1).drop_last() =~= old_entries.take(i));
            assert(old_entries.take(i + 1).last() == old_entries[i]);
            let e: (FeatureName, FeatureLayer) = rest.remove(0);
            assert(e == old_entries[i]);
            if e.0 != name {
                let ghost before = kept@;
                kept.push(e);
                proof {
                    assert(kept@ == before.push(old_entries[i]));
                    assert forall|k: int, j: int|
                        0 <= k < kept@.len() && i + 1 <= j < old_entries.len() implies (#[trigger] kept@[k]).0
                            != (#[trigger] old_entries[j]).0 by {
                        if k == before.len() {
                        } else {
                            assert(kept@[k] == before[k]);
                        }
                    }
                    assert forall|a: int, b: int| 0 <= a < b < kept@.len() implies (#[trigger] kept@[a]).0
                        != (#[trigger] kept@[b]).0 by {
                        if b == before.len() {
                            assert(kept@[a] == before[a]);
                        } else {
                            assert(kept@[a] == before[a] && kept@[b] == before[b]);
                        }
                    }
                }
            }
            proof {
                i = i + 1;
            }
            assert(rest@ =~= old_entries.skip(i));
        }
        assert(old_entries.take(old_entries.len() as int) =~= old_entries);
        let ghost before = kept@;
        kept.push((name, layer));
        assert forall|a: int, b: int| 0 <= a < b < kept@.len() implies (#[trigger] kept@[a]).0 != (#[trigger] kept@[b]).0 by {
            assert(kept@[a] == before[a]);
            if b < before.len() {
                assert(kept@[b] == before[b]);
            }
        }
        *self = FeatureLayers { entries: kept };
    }

    /// The contributions, at most one per feature.
    pub fn entries(&self) -> (r: &[(FeatureName, FeatureLayer)])
        ensures
            r@ == self@,
            distinct_features(r@),
    {
        proof {
            use_type_invariant(self);
        }
        self.entries.as_slice()
    }
}

impl Clone for FeatureLayers {
    fn clone(&self) -> (r: Self)
        ensures
            r@.len() == self@.len(),
            forall|k: int| 0 <= k < r@.len() ==> (#[trigger] r@[k]).0 == self@[k].0,
    {
        proof {
            use_type_invariant(self);
        }
        let mut entries: Vec<(FeatureName, FeatureLayer)> = Vec::new();
        let mut i: usize = 0;
        while i < self.entries.len()
            invariant
                0 <= i <= self.entries@.len(),
                distinct_features(self.entries@),
                entries@.len() == i,
                forall|k: int| 0 <= k < i ==> (#[trigger] entries@[k]).0 == self.entries@[k].0,
            decreases self.entries.len() - i,
        {
            entries.push((self.entries[i].0, self.entries[i].1.clone()));
            i += 1;
        }
        assert forall|a: int, b: int| 0 <= a < b < entries@.len() implies (#[trigger] entries@[a]).0
            != (#[trigger] entries@[b]).0 by {
            assert(self.entries@[a].0 != self.entries@[b].0);
        }
        FeatureLayers { entries }
    }
}

impl Default for FeatureLayers {
    fn default() -> (r: Self)
        ensures
            r@.len() == 0,
    {
        FeatureLayers::new()
    }
}

/// One configuration source's partial contribution: what it sets, and nothing
/// it leaves untouched (`None` keeps the weaker value). `features` holds the
/// contribution to each feature this source touches, at most one per feature.
#[derive(Debug, Clone, Default, PartialEq, Eq)]
pub struct SettingsLayer {
    pub projectroot: Option<String>,
    pub site_name: Option<String>,
    pub logo: Option<String>,
    pub favicon: Option<String>,
    pub default_projects_order: Option<String>,
    pub projects_list_description_width: Option<usize>,
    pub omit_age_column: Option<bool>,
    pub omit_owner: Option<bool>,
    pub fallback_encoding: Option<String>,
    pub prevent_xss: Option<bool>,
    pub stylesheets: Option<Vec<String>>,
    pub git_base_url_list: Option<Vec<String>>,
    pub features: FeatureLayers,
}

/// One repository's `gitweb.<key>` values for the overridable features: a
/// feature present here is one the repository set; the inner `None` is a
/// valueless key (`[gitweb] blame`).
#[derive(Debug, PartialEq, Eq)]
pub struct ProjectOverrides {
    values: Vec<Option<Option<String>>>,
}

/// The raw value of one override slot.
pub open spec fn raw_view(v: Option<Option<String>>) -> Option<Option<Seq<char>>> {
    match v {
        None => None,
        Some(None) => Some(None),
        Some(Some(s)) => Some(Some(s@)),
    }
}

impl View for ProjectOverrides {
    type V = Seq<Option<Option<Seq<char>>>>;

    closed spec fn view(&self) -> Seq<Option<Option<Seq<char>>>> {
        self.values@.map_values(|v: Option<Option<String>>| raw_view(v))
    }
}

impl ProjectOverrides {
    #[verifier::type_invariant]
    spec fn slots(&self) -> bool {
        self.values@.len() == FEATURE_COUNT
    }

    /// An empty set — the repository sets no `gitweb.*` config.
    pub fn new() -> (r: Self)
        ensures
            r@ == Seq::new(FEATURE_COUNT as nat, |_i: int| None::<Option<Seq<char>>>),
    {
        let mut values: Vec<Option<Option<String>>> = Vec::new();
        let mut i: usize = 0;
        while i < FEATURE_COUNT
            invariant
                0 <= i <= FEATURE_COUNT,
                values@.len() == i,
                forall|j: int| 0 <= j < i ==> #[trigger] values@[j] is None,
            decreases FEATURE_COUNT - i,
        {
            values.push(None);
            i += 1;
        }
        let r = ProjectOverrides { values };
        assert(r@ =~= Seq::new(FEATURE_COUNT as nat, |_i: int| None::<Option<Seq<char>>>));
        r
    }

    /// Records the repository's value for `feature`'s key (`None` = a
    /// valueless key).
    pub fn set(&mut self, feature: FeatureName, value: Option<String>)
        ensures
            final(self)@ == old(self)@.update(feature_index(feature), Some(match value {
                Some(s) => Some(s@),
                None => None,
            })),
    {
        proof {
            use_type_invariant(&*self);
        }
        let i: usize = feature.index();
        let ghost v = value;
        let mut taken = ProjectOverrides::new();
        std::mem::swap(&mut taken, self);
        let ProjectOverrides { mut values } = taken;
        values.set(i, Some(value));
        *self = ProjectOverrides { values };
        assert(self@ =~= old(self)@.update(feature_index(feature), raw_view(Some(v))));
    }

    fn get(&self, feature: FeatureName) -> (r: Option<Option<&str>>)
        ensures
            match self@[feature_index(feature)] {
                None => r is None,
                Some(None) => r == Some(None::<&str>),
                Some(Some(s)) => r matches Some(Some(t)) && t@ == s,
            },
    {
        proof {
            use_type_invariant(self);
        }
        let i: usize = feature.index();
        match &self.values[i] {
            None => None,
            Some(None) => Some(None),
            Some(Some(s)) => Some(Some(s.as_str())),
        }
    }
}

/// The resolved, effective global configuration.
#[derive(Debug, PartialEq, Eq)]
pub struct Settings {
    projectroot: String,
    site_name: String,
    logo: String,
    favicon: String,
    default_projects_order: String,
    projects_list_description_width: usize,
    omit_age_column: bool,
    omit_owner: bool,
    fallback_encoding: String,
    prevent_xss: bool,
    stylesheets: Vec<String>,
    git_base_url_list: Vec<String>,
    features: Vec<Feature>,
}

/// [`Settings`] seen through its texts; `features` is in declaration order.
pub struct SettingsView {
    pub projectroot: Seq<char>,
    pub site_name: Seq<char>,
    pub logo: Seq<char>,
    pub favicon: Seq<char>,
    pub default_projects_order: Seq<char>,
    pub projects_list_description_width: usize,
    pub omit_age_column: bool,
    pub omit_owner: bool,
    pub fallback_encoding: Seq<char>,
    pub prevent_xss: bool,
    pub stylesheets: Seq<Seq<char>>,
    pub git_base_url_list: Seq<Seq<char>>,
    pub features: Seq<FeatureView>,
}

impl View for Settings {
    type V = SettingsView;

    closed spec fn view(&self) -> SettingsView {
        SettingsView {
            projectroot: self.projectroot@,
            site_name: self.site_name@,
            logo: self.logo@,
            favicon: self.favicon@,
            default_projects_order: self.default_projects_order@,
            projects_list_description_width: self.projects_list_description_width,
            omit_age_column: self.omit_age_column,
            omit_owner: self.omit_owner,
            fallback_encoding: self.fallback_encoding@,
            prevent_xss: self.prevent_xss,
            stylesheets: texts(self.stylesheets@),
            git_base_url_list: texts(self.git_base_url_list@),
            features: self.features@.map_values(|f: Feature| f@),
        }
    }
}

/// gitweb's compiled-in defaults.
pub open spec fn builtin_settings() -> SettingsView {
    SettingsView {
        projectroot: Seq::empty(),
        site_name: "Untitled Git"@,
        logo: "static/git-logo.png"@,
        favicon: "static/git-favicon.png"@,
        default_projects_order: "project"@,
        projects_list_description_width: 25,
        omit_age_column: false,
        omit_owner: false,
        fallback_encoding: "latin1"@,
        prevent_xss: false,
        stylesheets: seq!["static/gitweb.css"@],
        git_base_url_list: Seq::empty(),
        features: all_features().map_values(|n: FeatureName| builtin_feature(n)),
    }
}

/// A layer's value where it sets one, else the current value.
pub open spec fn overlay<T>(current: T, source: Option<T>) -> T {
    match source {
        Some(v) => v,
        None => current,
    }
}

/// One feature with one source's partial contribution laid over it.
pub open spec fn overlay_feature(f: FeatureView, l: FeatureLayerView) -> FeatureView {
    FeatureView {
        default: overlay(f.default, l.default),
        overridable: overlay(f.overridable, l.overridable),
    }
}

/// The features with each of a source's contributions laid over them in turn.
pub open spec fn overlay_features(fs: Seq<FeatureView>, ls: Seq<(FeatureName, FeatureLayer)>) -> Seq<FeatureView>
    decreases ls.len(),
{
    if ls.len() == 0 {
        fs
    } else {
        let before = overlay_features(fs, ls.drop_last());
        let (n, l) = ls.last();
        before.update(feature_index(n), overlay_feature(before[feature_index(n)], l@))
    }
}

/// The texts of an optional list.
pub open spec fn opt_texts(o: Option<Vec<String>>) -> Option<Seq<Seq<char>>> {
    match o {
        Some(v) => Some(texts(v@)),
        None => None,
    }
}

/// The optional text.
pub open spec fn opt_text(o: Option<String>) -> Option<Seq<char>> {
    match o {
        Some(s) => Some(s@),
        None => None,
    }
}

/// One source laid over the current values: each set scalar or list replaces,
/// each feature's default and flag overlay independently.
pub open spec fn apply_layer(s: SettingsView, l: SettingsLayer) -> SettingsView {
    SettingsView {
        projectroot: overlay(s.projectroot, opt_text(l.projectroot)),
        site_name: overlay(s.site_name, opt_text(l.site_name)),
        logo: overlay(s.logo, opt_text(l.logo)),
        favicon: overlay(s.favicon, opt_text(l.favicon)),
        default_projects_order: overlay(s.default_projects_order, opt_text(l.default_projects_order)),
        projects_list_description_width: overlay(
            s.projects_list_description_width,
            l.projects_list_description_width,
        ),
        omit_age_column: overlay(s.omit_age_column, l.omit_age_column),
        omit_owner: overlay(s.omit_owner, l.omit_owner),
        fallback_encoding: overlay(s.fallback_encoding, opt_text(l.fallback_encoding)),
        prevent_xss: overlay(s.prevent_xss, l.prevent_xss),
        stylesheets: overlay(s.stylesheets, opt_texts(l.stylesheets)),
        git_base_url_list: overlay(s.git_base_url_list, opt_texts(l.git_base_url_list)),
        features: overlay_features(s.features, l.features@),
    }
}

/// The settings resolved from `layers`, weakest first, over the defaults.
pub open spec fn resolve_layers(layers: Seq<SettingsLayer>) -> SettingsView
    decreases layers.len(),
{
    if layers.len() == 0 {
        builtin_settings()
    } else {
        apply_layer(resolve_layers(layers.drop_last()), layers.last())
    }
}

/// A value with git's `k`/`m`/`g` unit suffix: the multiplier of a unit.
pub open spec fn unit_multiplier(c: char) -> Option<int> {
    if c == 'k' || c == 'K' {
        Some(1024)
    } else if c == 'm' || c == 'M' {
        Some(1048576)
    } else if c == 'g' || c == 'G' {
        Some(1073741824)
    } else {
        None
    }
}

/// The value of a digit run as an `i64` parse gives it, with an overflowing
/// run read as zero (`parse().unwrap_or(0)`).
pub open spec fn parsed_or_zero(s: Seq<char>) -> nat {
    if s.len() > 0 && digits_value(s) <= i64::MAX {
        digits_value(s)
    } else {
        0
    }
}

/// gitweb's `config_to_int`: the trimmed value with a `k`/`m`/`g` unit applied
/// when it reads `[0-9]*[kmg]` (an empty number counting as zero); any other
/// value as-is.
pub open spec fn config_to_int_spec(value: Seq<char>) -> Seq<char> {
    let v = trim(value);
    if v.len() > 0 && unit_multiplier(v.last()) is Some && all_digits(v.drop_last()) {
        decimal((parsed_or_zero(v.drop_last()) * unit_multiplier(v.last())->0) as nat)
    } else {
        v
    }
}

/// The ASCII lowercase of `c`.
pub open spec fn ascii_lower(c: char) -> char {
    if 'A' <= c && c <= 'Z' {
        ((c as u32) + 32) as char
    } else {
        c
    }
}

/// `a` equals `b` ignoring ASCII case.
pub open spec fn eq_ignore_case(a: Seq<char>, b: Seq<char>) -> bool {
    a.len() == b.len() && forall|i: int| 0 <= i < a.len() ==> #[trigger] ascii_lower(a[i]) == ascii_lower(b[i])
}

/// gitweb's `config_to_bool`: a valueless key is on; otherwise, trimmed, a
/// digit run other than `0`, or `true`/`yes` in any case, is on.
pub open spec fn config_to_bool_spec(value: Option<Seq<char>>) -> bool {
    match value {
        None => true,
        Some(raw) => {
            let v = trim(raw);
            (v.len() > 0 && all_digits(v) && v != "0"@) || eq_ignore_case(v, "true"@) || eq_ignore_case(v, "yes"@)
        },
    }
}

/// A field separator: white space for kind `0` (`split_whitespace`); a comma
/// or white space otherwise (gitweb's `split /\s*[,\s]\s*/`).
pub open spec fn separates(kind: u8, c: char) -> bool {
    if kind == 0 {
        is_space(c)
    } else {
        c == ',' || is_space(c)
    }
}

/// The separator-free runs of `s` scanned so far and the run in progress.
pub open spec fn scan_tokens(s: Seq<char>, kind: u8) -> (Seq<Seq<char>>, Seq<char>)
    decreases s.len(),
{
    if s.len() == 0 {
        (seq![], seq![])
    } else {
        let (done, cur) = scan_tokens(s.drop_last(), kind);
        if separates(kind, s.last()) {
            if cur.len() > 0 {
                (done.push(cur), seq![])
            } else {
                (done, seq![])
            }
        } else {
            (done, cur.push(s.last()))
        }
    }
}

/// The maximal non-empty runs of `s` between separators of `kind`, in order.
pub open spec fn tokens(s: Seq<char>, kind: u8) -> Seq<Seq<char>> {
    let (done, cur) = scan_tokens(s, kind);
    if cur.len() > 0 {
        done.push(cur)
    } else {
        done
    }
}

/// gitweb's `feature_snapshot` value rule: `none` is no formats; otherwise the
/// comma/white-space separated fields, empty ones dropped.
pub open spec fn snapshot_formats_spec(value: Seq<char>) -> Seq<Seq<char>> {
    if value == "none"@ {
        seq![]
    } else {
        tokens(value, 1)
    }
}

/// The options an overridable feature takes from the repository's raw value.
pub open spec fn override_options(f: FeatureView, rule: OverrideRule, raw: Option<Seq<char>>) -> Seq<Seq<char>> {
    match rule {
        OverrideRule::Bool => if config_to_bool_spec(raw) {
            seq!["1"@]
        } else {
            seq!["0"@]
        },
        OverrideRule::SnapshotList => match raw {
            Some(v) => if perl_truthy(v) {
                snapshot_formats_spec(v)
            } else {
                f.default
            },
            None => f.default,
        },
        OverrideRule::Int => match raw {
            Some(v) => seq![config_to_int_spec(v)],
            None => f.default,
        },
        OverrideRule::Value => match raw {
            Some(v) => seq![v],
            None => f.default,
        },
        OverrideRule::WsList => match raw {
            Some(v) => if perl_truthy(v) {
                tokens(v, 0)
            } else {
                f.default
            },
            None => f.default,
        },
    }
}

/// The feature a repository's `gitweb.<key>` value makes of `f`: unchanged
/// unless the feature is overridable, has a `feature_*` rule, and the key is
/// set; then its options are re-read by that rule (the flag stays).
pub open spec fn project_feature(n: FeatureName, f: FeatureView, raw: Option<Option<Seq<char>>>) -> FeatureView {
    if f.overridable && rule_of(n) is Some && raw is Some {
        FeatureView { default: override_options(f, rule_of(n)->0, raw->0), overridable: f.overridable }
    } else {
        f
    }
}

/// The settings with one repository's overrides applied to the features.
pub open spec fn settings_for_project(s: SettingsView, o: Seq<Option<Option<Seq<char>>>>) -> SettingsView {
    SettingsView {
        features: Seq::new(
            s.features.len(),
            |i: int| project_feature(all_features()[i], s.features[i], o[i]),
        ),
        ..s
    }
}

fn replace_text(target: &mut String, source: &Option<String>)
    ensures
        final(target)@ == overlay(old(target)@, opt_text(*source)),
{
    if let Some(v) = source {
        *target = v.clone();
    }
}

fn replace_list(target: &mut Vec<String>, source: &Option<Vec<String>>)
    ensures
        texts(final(target)@) == overlay(texts(old(target)@), opt_texts(*source)),
{
    if let Some(v) = source {
        *target = clone_strings(v);
    }
}

fn config_to_bool(value: Option<&str>) -> (r: bool)
    ensures
        r == config_to_bool_spec(match value {
            Some(s) => Some(s@),
            None => None,
        }),
{
    let raw: &str = match value {
        None => return true,
        Some(v) => v,
    };
    let all: Vec<char> = chars_of(raw);
    let v: Vec<char> = trim_chars(&all);
    let mut digits: bool = v.len() > 0;
    let mut i: usize = 0;
    while i < v.len()
        invariant
            0 <= i <= v.len(),
            digits == (v.len() > 0 && forall|j: int| 0 <= j < i ==> is_digit(#[trigger] v@[j])),
        decreases v.len() - i,
    {
        if !digit(v[i]) {
            digits = false;
        }
        i += 1;
    }
    let zero: Vec<char> = chars_of("0");
    let is_zero: bool = crate::text::chars_eq(&v, &zero);
    let truthy_number: bool = digits && !is_zero;
    truthy_number || eq_ignore_ascii_case(&v, "true") || eq_ignore_ascii_case(&v, "yes")
}

fn lower_char(c: char) -> (r: char)
    ensures
        r == ascii_lower(c),
{
    if 'A' <= c && c <= 'Z' {
        ((c as u32) + 32) as u8 as char
    } else {
        c
    }
}

fn eq_ignore_ascii_case(a: &Vec<char>, b: &str) -> (r: bool)
    ensures
        r == eq_ignore_case(a@, b@),
{
    let bc: Vec<char> = chars_of(b);
    if a.len() != bc.len() {
        return false;
    }
    let mut i: usize = 0;
    while i < a.len()
        invariant
            0 <= i <= a.len(),
            a.len() == bc.len(),
            bc@ == b@,
            forall|j: int| 0 <= j < i ==> #[trigger] ascii_lower(a@[j]) == ascii_lower(bc@[j]),
        decreases a.len() - i,
    {
        if lower_char(a[i]) != lower_char(bc[i]) {
            return false;
        }
        i += 1;
    }
    true
}

fn unit_of(c: char) -> (r: Option<u64>)
    ensures
        match unit_multiplier(c) {
            Some(m) => r == Some(m as u64),
            None => r is None,
        },
{
    if c == 'k' || c == 'K' {
        Some(1024)
    } else if c == 'm' || c == 'M' {
        Some(1048576)
    } else if c == 'g' || c == 'G' {
        Some(1073741824)
    } else {
        None
    }
}

fn config_to_int(value: &str) -> (r: String)
    ensures
        r@ == config_to_int_spec(value@),
{
    let all: Vec<char> = chars_of(value);
    let v: Vec<char> = trim_chars(&all);
    if v.len() > 0 {
        if let Some(multiplier) = unit_of(v[v.len() - 1]) {
            let number: Vec<char> = crate::text::slice(&v, 0, v.len() - 1);
            assert(number@ == v@.drop_last());
            let mut i: usize = 0;
            let mut acc: u128 = 0;
            let mut fits: bool = true;
            while i < number.len()
                invariant
                    0 <= i <= number.len(),
                    v.len() > 0,
                    v@ == trim(value@),
                    number@ == v@.drop_last(),
                    unit_multiplier(v@.last()) == Some(multiplier as int),
                    forall|j: int| 0 <= j < i ==> is_digit(#[trigger] number@[j]),
                    fits ==> acc == digits_value(number@.take(i as int)),
                    fits ==> acc <= i64::MAX,
                    !fits ==> digits_value(number@.take(i as int)) > i64::MAX,
                decreases number.len() - i,
            {
                let c: char = number[i];
                if !digit(c) {
                    assert(!is_digit(number@[i as int]));
                    assert(!all_digits(v@.drop_last()));
                    return string_of(v.as_slice());
                }
                assert(number@.take(i + 1).drop_last() == number@.take(i as int));
                assert(number@.take(i + 1).last() == c);
                proof {
                    if !fits {
                        assert(digits_value(number@.take(i + 1)) >= digits_value(number@.take(i as int)) * 10);
                    }
                }
                if fits {
                    let d: u128 = (c as u32 - '0' as u32) as u128;
                    acc = acc * 10 + d;
                    if acc > i64::MAX as u128 {
                        fits = false;
                    }
                }
                i += 1;
            }
            assert(number@.take(number.len() as int) == number@);
            let parsed: u128 = if fits && number.len() > 0 { acc } else { 0 };
            assert(parsed == parsed_or_zero(v@.drop_last()));
            assert(multiplier <= 1073741824);
            assert(parsed * multiplier <= 0x7fff_ffff_ffff_ffffu128 * 1073741824) by (nonlinear_arith)
                requires
                    parsed <= 0x7fff_ffff_ffff_ffffu128,
                    multiplier <= 1073741824,
            ;
            let product: u128 = parsed * multiplier as u128;
            let digits: Vec<char> = decimal_chars(product);
            return string_of(digits.as_slice());
        }
    }
    string_of(v.as_slice())
}

fn scan(s: &Vec<char>, sep_kind: u8) -> (r: Vec<Vec<char>>)
    ensures
        crate::text::views(r@) == tokens(s@, sep_kind),
{
    let mut done: Vec<Vec<char>> = Vec::new();
    let mut cur: Vec<char> = Vec::new();
    let mut i: usize = 0;
    while i < s.len()
        invariant
            0 <= i <= s.len(),
            scan_tokens(s@.take(i as int), sep_kind) == (crate::text::views(done@), cur@),
        decreases s.len() - i,
    {
        assert(s@.take(i + 1).drop_last() == s@.take(i as int));
        assert(s@.take(i + 1).last() == s@[i as int]);
        let c: char = s[i];
        let sep: bool = if sep_kind == 0 {
            space(c)
        } else {
            c == ',' || space(c)
        };
        assert(sep == separates(sep_kind, c));
        if sep {
            if cur.len() > 0 {
                let ghost before = crate::text::views(done@);
                let finished: Vec<char> = cur;
                done.push(finished);
                assert(crate::text::views(done@) =~= before.push(finished@));
                cur = Vec::new();
            } else {
                cur = Vec::new();
            }
        } else {
            cur.push(c);
        }
        i += 1;
        assert(cur@ =~= scan_tokens(s@.take(i as int), sep_kind).1);
    }
    assert(s@.take(s.len() as int) == s@);
    if cur.len() > 0 {
        let ghost before = crate::text::views(done@);
        let finished: Vec<char> = cur;
        done.push(finished);
        assert(crate::text::views(done@) =~= before.push(finished@));
    }
    done
}

fn owned_tokens(parts: &Vec<Vec<char>>) -> (r: Vec<String>)
    ensures
        texts(r@) == crate::text::views(parts@),
{
    let mut r: Vec<String> = Vec::new();
    let mut i: usize = 0;
    while i < parts.len()
        invariant
            0 <= i <= parts.len(),
            texts(r@) == crate::text::views(parts@).take(i as int),
        decreases parts.len() - i,
    {
        let ghost prev = r@;
        let t: String = string_of(parts[i].as_slice());
        r.push(t);
        assert(r@ == prev.push(t));
        assert(texts(r@) =~= texts(prev).push(parts@[i as int]@));
        i += 1;
        assert(crate::text::views(parts@).take(i as int) =~= crate::text::views(parts@).take(
            i - 1,
        ).push(parts@[i - 1]@));
    }
    assert(crate::text::views(parts@).take(parts.len() as int) =~= crate::text::views(parts@));
    r
}

fn snapshot_formats(value: &str) -> (r: Vec<String>)
    ensures
        texts(r@) == snapshot_formats_spec(value@),
{
    if str_eq(value, "none") {
        let r: Vec<String> = Vec::new();
        assert(texts(r@) =~= Seq::<Seq<char>>::empty());
        return r;
    }
    let chars: Vec<char> = chars_of(value);
    let parts: Vec<Vec<char>> = scan(&chars, 1);
    owned_tokens(&parts)
}

pub(crate) fn perl_truthy_str(value: &str) -> (r: bool)
    ensures
        r == perl_truthy(value@),
{
    let chars: Vec<char> = chars_of(value);
    chars.len() != 0 && !str_eq(value, "0")
}

fn apply_override(feature: &Feature, rule: OverrideRule, raw: Option<&str>) -> (r: Feature)
    ensures
        r@ == (FeatureView {
            default: override_options(feature@, rule, match raw {
                Some(s) => Some(s@),
                None => None,
            }),
            overridable: feature@.overridable,
        }),
{
    let default: Vec<String> = match rule {
        OverrideRule::Bool => {
            if config_to_bool(raw) {
                opts1("1")
            } else {
                opts1("0")
            }
        },
        OverrideRule::SnapshotList => match raw {
            Some(value) => {
                if perl_truthy_str(value) {
                    snapshot_formats(value)
                } else {
                    clone_strings(&feature.default)
                }
            },
            None => clone_strings(&feature.default),
        },
        OverrideRule::Int => match raw {
            Some(value) => {
                let s: String = config_to_int(value);
                let v = vec![s];
                assert(texts(v@) =~= seq![config_to_int_spec(value@)]);
                v
            },
            None => clone_strings(&feature.default),
        },
        OverrideRule::Value => match raw {
            Some(value) => opts1(value),
            None => clone_strings(&feature.default),
        },
        OverrideRule::WsList => match raw {
            Some(value) => {
                if perl_truthy_str(value) {
                    let chars: Vec<char> = chars_of(value);
                    let parts: Vec<Vec<char>> = scan(&chars, 0);
                    owned_tokens(&parts)
                } else {
                    clone_strings(&feature.default)
                }
            },
            None => clone_strings(&feature.default),
        },
    };
    Feature { default, overridable: feature.overridable }
}

impl Settings {
    #[verifier::type_invariant]
    spec fn every_feature(&self) -> bool {
        self.features@.len() == FEATURE_COUNT
    }

    /// gitweb's compiled-in defaults: its `our` declarations and `%feature`
    /// hash before any config file is read.
    pub fn builtin() -> (r: Self)
        ensures
            r@ == builtin_settings(),
    {
        let names: Vec<FeatureName> = FeatureName::all();
        let mut features: Vec<Feature> = Vec::new();
        let mut i: usize = 0;
        while i < names.len()
            invariant
                0 <= i <= names.len(),
                names@ == all_features(),
                features@.map_values(|f: Feature| f@) == all_features().take(i as int).map_values(
                    |n: FeatureName| builtin_feature(n),
                ),
            decreases names.len() - i,
        {
            let ghost prev = features@;
            let f: Feature = names[i].builtin();
            features.push(f);
            assert(features@ == prev.push(f));
            assert(features@.map_values(|f: Feature| f@) =~= prev.map_values(|f: Feature| f@).push(
                f@,
            ));
            i += 1;
            assert(all_features().take(i as int) =~= all_features().take(i - 1).push(
                all_features()[i - 1],
            ));
            assert(features@.map_values(|f: Feature| f@) =~= all_features().take(
                i as int,
            ).map_values(|n: FeatureName| builtin_feature(n)));
        }
        assert(all_features().take(FEATURE_COUNT as int) =~= all_features());
        let stylesheets: Vec<String> = opts1("static/gitweb.css");
        let git_base_url_list: Vec<String> = Vec::new();
        assert(texts(git_base_url_list@) =~= Seq::<Seq<char>>::empty());
        let r = Settings {
            projectroot: String::new(),
            site_name: "Untitled Git".to_owned(),
            logo: "static/git-logo.png".to_owned(),
            favicon: "static/git-favicon.png".to_owned(),
            default_projects_order: "project".to_owned(),
            projects_list_description_width: 25,
            omit_age_column: false,
            omit_owner: false,
            fallback_encoding: "latin1".to_owned(),
            prevent_xss: false,
            stylesheets,
            git_base_url_list,
            features,
        };
        assert(r@.features =~= builtin_settings().features);
        r
    }

    /// Resolves the effective settings: the built-in defaults overlaid by each
    /// source in turn, weakest first, so the strongest source that sets a value
    /// wins.
    pub fn resolve(layers: &[SettingsLayer]) -> (r: Self)
        ensures
            r@ == resolve_layers(layers@),
    {
        let mut resolved: Settings = Settings::builtin();
        let mut i: usize = 0;
        assert(layers@.take(0) =~= Seq::<SettingsLayer>::empty());
        while i < layers.len()
            invariant
                0 <= i <= layers@.len(),
                resolved@ == resolve_layers(layers@.take(i as int)),
            decreases layers.len() - i,
        {
            assert(layers@.take(i + 1).drop_last() =~= layers@.take(i as int));
            resolved.apply(&layers[i]);
            i += 1;
        }
        assert(layers@.take(layers.len() as int) =~= layers@);
        resolved
    }

    fn apply(&mut self, layer: &SettingsLayer)
        ensures
            final(self)@ == apply_layer(old(self)@, *layer),
    {
        proof {
            use_type_invariant(&*self);
        }
        let mut features: Vec<Feature> = Vec::new();
        let mut k: usize = 0;
        while k < self.features.len()
            invariant
                0 <= k <= self.features@.len(),
                self.features@.len() == FEATURE_COUNT,
                features@.map_values(|f: Feature| f@) == self.features@.map_values(
                    |f: Feature| f@,
                ).take(k as int),
            decreases self.features.len() - k,
        {
            let ghost prev = features@;
            let f: Feature = self.features[k].duplicate();
            features.push(f);
            assert(features@ == prev.push(f));
            assert(features@.map_values(|f: Feature| f@) =~= prev.map_values(|f: Feature| f@).push(
                f@,
            ));
            k += 1;
            assert(features@.map_values(|f: Feature| f@) =~= self.features@.map_values(
                |f: Feature| f@,
            ).take(k as int));
        }
        assert(self.features@.map_values(|f: Feature| f@).take(FEATURE_COUNT as int)
            =~= self.features@.map_values(|f: Feature| f@));
        let ghost start = self@.features;
        let entries: &[(FeatureName, FeatureLayer)] = layer.features.entries();
        let mut i: usize = 0;
        assert(layer.features@.take(0) =~= Seq::<(FeatureName, FeatureLayer)>::empty());
        while i < entries.len()
            invariant
                entries@ == layer.features@,
                0 <= i <= layer.features@.len(),
                features@.len() == FEATURE_COUNT,
                features@.map_values(|f: Feature| f@) == overlay_features(
                    start,
                    layer.features@.take(i as int),
                ),
            decreases entries.len() - i,
        {
            assert(layer.features@.take(i + 1).drop_last() =~= layer.features@.take(i as int));
            assert(layer.features@.take(i + 1).last() == layer.features@[i as int]);
            let name: FeatureName = entries[i].0;
            let over: &FeatureLayer = &entries[i].1;
            let idx: usize = name.index();
            let current: &Feature = &features[idx];
            let default: Vec<String> = match &over.default {
                Some(v) => clone_strings(v),
                None => clone_strings(&current.default),
            };
            let overridable: bool = match over.overridable {
                Some(b) => b,
                None => current.overridable,
            };
            let ghost before = features@.map_values(|f: Feature| f@);
            let updated = Feature { default, overridable };
            assert(updated@ == overlay_feature(before[idx as int], over@));
            features.set(idx, updated);
            i += 1;
            assert(features@.map_values(|f: Feature| f@) =~= before.update(
                idx as int,
                updated@,
            ));
        }
        assert(layer.features@.take(entries.len() as int) =~= layer.features@);
        let mut projectroot: String = self.projectroot.clone();
        replace_text(&mut projectroot, &layer.projectroot);
        let mut site_name: String = self.site_name.clone();
        replace_text(&mut site_name, &layer.site_name);
        let mut logo: String = self.logo.clone();
        replace_text(&mut logo, &layer.logo);
        let mut favicon: String = self.favicon.clone();
        replace_text(&mut favicon, &layer.favicon);
        let mut default_projects_order: String = self.default_projects_order.clone();
        replace_text(&mut default_projects_order, &layer.default_projects_order);
        let mut fallback_encoding: String = self.fallback_encoding.clone();
        replace_text(&mut fallback_encoding, &layer.fallback_encoding);
        let mut stylesheets: Vec<String> = clone_strings(&self.stylesheets);
        replace_list(&mut stylesheets, &layer.stylesheets);
        let mut git_base_url_list: Vec<String> = clone_strings(&self.git_base_url_list);
        replace_list(&mut git_base_url_list, &layer.git_base_url_list);
        let projects_list_description_width: usize = match layer.projects_list_description_width {
            Some(v) => v,
            None => self.projects_list_description_width,
        };
        let omit_age_column: bool = match layer.omit_age_column {
            Some(v) => v,
            None => self.omit_age_column,
        };
        let omit_owner: bool = match layer.omit_owner {
            Some(v) => v,
            None => self.omit_owner,
        };
        let prevent_xss: bool = match layer.prevent_xss {
            Some(v) => v,
            None => self.prevent_xss,
        };
        *self = Settings {
            projectroot,
            site_name,
            logo,
            favicon,
            default_projects_order,
            projects_list_description_width,
            omit_age_column,
            omit_owner,
            fallback_encoding,
            prevent_xss,
            stylesheets,
            git_base_url_list,
            features,
        };
    }

    /// Re-resolves the feature toggles against one repository's `gitweb.<key>`
    /// config — gitweb's per-project `gitweb_get_feature` (see
    /// [`settings_for_project`]).
    pub fn for_project(&self, overrides: &ProjectOverrides) -> (r: Settings)
        ensures
            r@ == settings_for_project(self@, overrides@),
    {
        proof {
            use_type_invariant(self);
            use_type_invariant(overrides);
        }
        let names: Vec<FeatureName> = FeatureName::all();
        let mut features: Vec<Feature> = Vec::new();
        let ghost target = settings_for_project(self@, overrides@).features;
        let mut i: usize = 0;
        while i < FEATURE_COUNT
            invariant
                0 <= i <= FEATURE_COUNT,
                names@ == all_features(),
                self.features@.len() == FEATURE_COUNT,
                overrides@.len() == FEATURE_COUNT,
                target == settings_for_project(self@, overrides@).features,
                features@.map_values(|f: Feature| f@) == target.take(i as int),
            decreases FEATURE_COUNT - i,
        {
            let name: FeatureName = names[i];
            assert(feature_index(name) == i as int) by {
                assert(name == all_features()[i as int]);
            }
            let feature: &Feature = &self.features[i];
            let mut result: Option<Feature> = None;
            if feature.overridable {
                if let Some(rule) = name.override_rule() {
                    if let Some(raw) = overrides.get(name) {
                        result = Some(apply_override(feature, rule, raw));
                    }
                }
            }
            let next: Feature = match result {
                Some(f) => f,
                None => feature.duplicate(),
            };
            assert(next@ == target[i as int]);
            let ghost prev = features@;
            features.push(next);
            assert(features@ == prev.push(next));
            assert(features@.map_values(|f: Feature| f@) =~= prev.map_values(|f: Feature| f@).push(
                next@,
            ));
            i += 1;
            assert(features@.map_values(|f: Feature| f@) =~= target.take(i as int));
        }
        assert(target.take(FEATURE_COUNT as int) =~= target);
        let r = Settings {
            projectroot: self.projectroot.clone(),
            site_name: self.site_name.clone(),
            logo: self.logo.clone(),
            favicon: self.favicon.clone(),
            default_projects_order: self.default_projects_order.clone(),
            projects_list_description_width: self.projects_list_description_width,
            omit_age_column: self.omit_age_column,
            omit_owner: self.omit_owner,
            fallback_encoding: self.fallback_encoding.clone(),
            prevent_xss: self.prevent_xss,
            stylesheets: clone_strings(&self.stylesheets),
            git_base_url_list: clone_strings(&self.git_base_url_list),
            features,
        };
        assert(r@.features =~= target);
        r
    }

    /// Absolute filesystem path prepended to every project path.
    pub fn projectroot(&self) -> (r: &str)
        ensures
            r@ == self@.projectroot,
    {
        self.projectroot.as_str()
    }

    /// Site name shown in page titles (`$site_name`).
    pub fn site_name(&self) -> (r: &str)
        ensures
            r@ == self@.site_name,
    {
        self.site_name.as_str()
    }

    /// The site logo URL (`$logo`).
    pub fn logo(&self) -> (r: &str)
        ensures
            r@ == self@.logo,
    {
        self.logo.as_str()
    }

    /// The site favicon URL (`$favicon`).
    pub fn favicon(&self) -> (r: &str)
        ensures
            r@ == self@.favicon,
    {
        self.favicon.as_str()
    }

    /// Default ordering of the projects list (`$default_projects_order`).
    pub fn default_projects_order(&self) -> (r: &str)
        ensures
            r@ == self@.default_projects_order,
    {
        self.default_projects_order.as_str()
    }

    /// Width of the projects-list description column.
    pub fn projects_list_description_width(&self) -> (r: usize)
        ensures
            r == self@.projects_list_description_width,
    {
        self.projects_list_description_width
    }

    /// Whether to omit the age column (`$omit_age_column`).
    pub fn omit_age_column(&self) -> (r: bool)
        ensures
            r == self@.omit_age_column,
    {
        self.omit_age_column
    }

    /// Whether to omit owner information (`$omit_owner`).
    pub fn omit_owner(&self) -> (r: bool)
        ensures
            r == self@.omit_owner,
    {
        self.omit_owner
    }

    /// Encoding assumed for bytes that are not valid UTF-8.
    pub fn fallback_encoding(&self) -> (r: &str)
        ensures
            r@ == self@.fallback_encoding,
    {
        self.fallback_encoding.as_str()
    }

    /// Whether to disable repository-owner script injection (`$prevent_xss`).
    pub fn prevent_xss(&self) -> (r: bool)
        ensures
            r == self@.prevent_xss,
    {
        self.prevent_xss
    }

    /// Stylesheet URIs linked from every page (`@stylesheets`).
    pub fn stylesheets(&self) -> (r: &[String])
        ensures
            texts(r@) == self@.stylesheets,
    {
        self.stylesheets.as_slice()
    }

    /// Base URLs for clone links (`@git_base_url_list`).
    pub fn git_base_url_list(&self) -> (r: &[String])
        ensures
            texts(r@) == self@.git_base_url_list,
    {
        self.git_base_url_list.as_slice()
    }

    /// The resolved feature toggle for `name`; every feature is present.
    pub fn feature(&self, name: FeatureName) -> (r: &Feature)
        ensures
            r@ == self@.features[feature_index(name)],
    {
        proof {
            use_type_invariant(self);
        }
        &self.features[name.index()]
    }
}

} // verus!
