//! The laws of the settings precedence rule: the strongest source that sets a
//! value wins, a list replaces wholesale, a layer that sets nothing changes
//! nothing, a feature's default and override flag overlay independently, a
//! layer's feature entries act as a map, a project's overrides touch only the
//! overridable features it sets, and every feature key leads back to its
//! feature.

use vstd::prelude::*;

use crate::model::settings::{all_features, apply_layer, distinct_features, rule_of, texts, builtin_settings, feature_index, feature_key, find_feature, overlay_feature, opt_text, opt_texts, overlay_features, resolve_layers, settings_for_project, FeatureLayer, FeatureName, FeatureView, SettingsLayer, SettingsView};

verus! {

/// A scalar takes the value of the strongest source that sets it: when layer
/// `k` sets the site name and no later layer does, the resolved site name is
/// layer `k`'s.
pub proof fn lemma_strongest_scalar_wins(layers: Seq<SettingsLayer>, k: int)
    requires
        0 <= k < layers.len(),
        layers[k].site_name is Some,
        forall|j: int| k < j < layers.len() ==> (#[trigger] layers[j]).site_name is None,
    ensures
        resolve_layers(layers).site_name == opt_text(layers[k].site_name)->0,
    decreases layers.len(),
{
    if k < layers.len() - 1 {
        lemma_strongest_scalar_wins(layers.drop_last(), k);
        assert(layers.last() == layers[layers.len() - 1]);
    }
}

/// A scalar no source sets keeps its built-in default.
pub proof fn lemma_unset_scalar_default(layers: Seq<SettingsLayer>)
    requires
        forall|j: int| 0 <= j < layers.len() ==> (#[trigger] layers[j]).site_name is None,
    ensures
        resolve_layers(layers).site_name == builtin_settings().site_name,
    decreases layers.len(),
{
    if layers.len() > 0 {
        lemma_unset_scalar_default(layers.drop_last());
        assert(layers.last() == layers[layers.len() - 1]);
    }
}

/// A list replaces wholesale: when layer `k` sets the stylesheets and no
/// later layer does, the resolved list is exactly layer `k`'s, nothing of the
/// weaker lists appended.
pub proof fn lemma_strongest_list_replaces(layers: Seq<SettingsLayer>, k: int)
    requires
        0 <= k < layers.len(),
        layers[k].stylesheets is Some,
        forall|j: int| k < j < layers.len() ==> (#[trigger] layers[j]).stylesheets is None,
    ensures
        resolve_layers(layers).stylesheets == opt_texts(layers[k].stylesheets)->0,
    decreases layers.len(),
{
    if k < layers.len() - 1 {
        lemma_strongest_list_replaces(layers.drop_last(), k);
        assert(layers.last() == layers[layers.len() - 1]);
    }
}

/// A feature's default and override flag overlay independently: entries that
/// never set feature `n`'s default leave that default as it was, whatever
/// they do to its flag.
pub proof fn lemma_feature_default_independent(
    fs: Seq<FeatureView>,
    ls: Seq<(FeatureName, FeatureLayer)>,
    n: FeatureName,
)
    requires
        fs.len() == all_features().len(),
        forall|j: int| 0 <= j < ls.len() && (#[trigger] ls[j]).0 == n ==> ls[j].1.default is None,
    ensures
        overlay_features(fs, ls).len() == fs.len(),
        overlay_features(fs, ls)[feature_index(n)].default == fs[feature_index(n)].default,
    decreases ls.len(),
{
    if ls.len() > 0 {
        lemma_feature_default_independent(fs, ls.drop_last(), n);
        assert(ls.last() == ls[ls.len() - 1]);
    }
}

/// The override flag likewise: entries that never set feature `n`'s flag
/// leave it as it was, whatever they do to its default.
pub proof fn lemma_feature_flag_independent(
    fs: Seq<FeatureView>,
    ls: Seq<(FeatureName, FeatureLayer)>,
    n: FeatureName,
)
    requires
        fs.len() == all_features().len(),
        forall|j: int| 0 <= j < ls.len() && (#[trigger] ls[j]).0 == n ==> ls[j].1.overridable is None,
    ensures
        overlay_features(fs, ls).len() == fs.len(),
        overlay_features(fs, ls)[feature_index(n)].overridable == fs[feature_index(n)].overridable,
    decreases ls.len(),
{
    if ls.len() > 0 {
        lemma_feature_flag_independent(fs, ls.drop_last(), n);
        assert(ls.last() == ls[ls.len() - 1]);
    }
}

/// Entries for other features leave feature `n` untouched.
pub proof fn lemma_feature_untouched(fs: Seq<FeatureView>, ls: Seq<(FeatureName, FeatureLayer)>, n: FeatureName)
    requires
        fs.len() == all_features().len(),
        forall|j: int| 0 <= j < ls.len() ==> (#[trigger] ls[j]).0 != n,
    ensures
        overlay_features(fs, ls).len() == fs.len(),
        overlay_features(fs, ls)[feature_index(n)] == fs[feature_index(n)],
    decreases ls.len(),
{
    if ls.len() > 0 {
        lemma_feature_untouched(fs, ls.drop_last(), n);
        let (m, _l) = ls.last();
        assert(ls.last() == ls[ls.len() - 1]);
        assert(m != n);
        assert(feature_index(m) != feature_index(n));
    }
}

/// A project's overrides change only the features the site made overridable
/// and the repository sets: every other feature, and every scalar and list,
/// is the global value.
pub proof fn lemma_project_touches_only_overridable(
    s: SettingsView,
    o: Seq<Option<Option<Seq<char>>>>,
    n: FeatureName,
)
    requires
        s.features.len() == all_features().len(),
        !s.features[feature_index(n)].overridable || o[feature_index(n)] is None,
    ensures
        settings_for_project(s, o).features[feature_index(n)] == s.features[feature_index(n)],
        settings_for_project(s, o).site_name == s.site_name,
        settings_for_project(s, o).projectroot == s.projectroot,
        settings_for_project(s, o).stylesheets == s.stylesheets,
        settings_for_project(s, o).git_base_url_list == s.git_base_url_list,
        settings_for_project(s, o).prevent_xss == s.prevent_xss,
        settings_for_project(s, o).omit_owner == s.omit_owner,
{
    assert(all_features()[feature_index(n)] == n);
}

/// A project can never make a feature overridable or not: the flag is the
/// site's, whatever the repository sets.
pub proof fn lemma_project_keeps_flags(s: SettingsView, o: Seq<Option<Option<Seq<char>>>>, i: int)
    requires
        0 <= i < s.features.len(),
    ensures
        settings_for_project(s, o).features[i].overridable == s.features[i].overridable,
{
}

/// Entries with at most one per feature (as every `FeatureLayers` holds)
/// act as a map: every named feature is its entry laid over the old value,
/// whatever the order of the entries, and every other feature is unchanged.
pub proof fn lemma_distinct_entries_act_as_map(fs: Seq<FeatureView>, ls: Seq<(FeatureName, FeatureLayer)>)
    requires
        fs.len() == all_features().len(),
        distinct_features(ls),
    ensures
        overlay_features(fs, ls).len() == fs.len(),
        forall|j: int|
            0 <= j < ls.len() ==> overlay_features(fs, ls)[feature_index(#[trigger] ls[j].0)]
                == overlay_feature(fs[feature_index(ls[j].0)], ls[j].1@),
        forall|k: int|
            0 <= k < fs.len() && (forall|j: int| 0 <= j < ls.len() ==> feature_index(#[trigger] ls[j].0) != k)
                ==> overlay_features(fs, ls)[k] == fs[k],
    decreases ls.len(),
{
    if ls.len() > 0 {
        let rest = ls.drop_last();
        assert(distinct_features(rest)) by {
            assert forall|i: int, j: int| 0 <= i < j < rest.len() implies (#[trigger] rest[i]).0 != (#[trigger] rest[j]).0 by {
                assert(rest[i] == ls[i] && rest[j] == ls[j]);
            }
        }
        lemma_distinct_entries_act_as_map(fs, rest);
        let (m, l) = ls.last();
        assert(ls.last() == ls[ls.len() - 1]);
        assert forall|j: int| 0 <= j < ls.len() implies overlay_features(fs, ls)[feature_index(#[trigger] ls[j].0)]
            == overlay_feature(fs[feature_index(ls[j].0)], ls[j].1@) by {
            if j < ls.len() - 1 {
                assert(rest[j] == ls[j]);
                assert(ls[j].0 != m);
                assert(feature_index(ls[j].0) != feature_index(m));
            } else {
                assert forall|i: int| 0 <= i < rest.len() implies feature_index(#[trigger] rest[i].0) != feature_index(m) by {
                    assert(rest[i] == ls[i]);
                    assert(ls[i].0 != ls[ls.len() - 1].0);
                }
            }
        }
        assert forall|k: int|
            0 <= k < fs.len() && (forall|j: int| 0 <= j < ls.len() ==> feature_index(#[trigger] ls[j].0) != k)
            implies overlay_features(fs, ls)[k] == fs[k] by {
            assert(feature_index(ls[ls.len() - 1].0) != k);
            assert forall|j: int| 0 <= j < rest.len() implies feature_index(#[trigger] rest[j].0) != k by {
                assert(rest[j] == ls[j]);
            }
        }
    }
}

/// A layer that sets nothing changes nothing: adding it as the strongest
/// source resolves to the same settings.
pub proof fn lemma_empty_layer_changes_nothing(layers: Seq<SettingsLayer>, empty: SettingsLayer)
    requires
        empty.projectroot is None,
        empty.site_name is None,
        empty.logo is None,
        empty.favicon is None,
        empty.default_projects_order is None,
        empty.projects_list_description_width is None,
        empty.omit_age_column is None,
        empty.omit_owner is None,
        empty.fallback_encoding is None,
        empty.prevent_xss is None,
        empty.stylesheets is None,
        empty.git_base_url_list is None,
        empty.features@.len() == 0,
    ensures
        apply_layer(resolve_layers(layers), empty) == resolve_layers(layers),
        resolve_layers(layers.push(empty)) == resolve_layers(layers),
{
    assert(layers.push(empty).drop_last() =~= layers);
}

/// A layer replaces exactly what it sets: its stylesheets (wholesale, never
/// appended to) and owner flag where it sets them; what it leaves unset, and
/// the features when it lists none, stay as they were.
pub proof fn lemma_layer_replaces_what_it_sets(s: SettingsView, l: SettingsLayer)
    ensures
        apply_layer(s, l).stylesheets == (match l.stylesheets {
            Some(v) => texts(v@),
            None => s.stylesheets,
        }),
        apply_layer(s, l).omit_owner == (match l.omit_owner {
            Some(b) => b,
            None => s.omit_owner,
        }),
        l.site_name is None ==> apply_layer(s, l).site_name == s.site_name,
        l.git_base_url_list is None ==> apply_layer(s, l).git_base_url_list == s.git_base_url_list,
        l.features@.len() == 0 ==> apply_layer(s, l).features == s.features,
{
}

/// A key's length with its first and last characters: enough to tell the keys
/// apart.
spec fn key_shape(n: FeatureName) -> (int, char, char) {
    match n {
        FeatureName::Blame => (5, 'b', 'e'),
        FeatureName::Snapshot => (8, 's', 't'),
        FeatureName::Search => (6, 's', 'h'),
        FeatureName::Grep => (4, 'g', 'p'),
        FeatureName::Pickaxe => (7, 'p', 'e'),
        FeatureName::ShowSizes => (10, 's', 's'),
        FeatureName::Pathinfo => (8, 'p', 'o'),
        FeatureName::Forks => (5, 'f', 's'),
        FeatureName::Actions => (7, 'a', 's'),
        FeatureName::Ctags => (5, 'c', 's'),
        FeatureName::Patches => (7, 'p', 's'),
        FeatureName::Avatar => (6, 'a', 'r'),
        FeatureName::Timed => (5, 't', 'd'),
        FeatureName::JavascriptActions => (18, 'j', 's'),
        FeatureName::JavascriptTimezone => (19, 'j', 'e'),
        FeatureName::Highlight => (9, 'h', 't'),
        FeatureName::RemoteHeads => (12, 'r', 's'),
        FeatureName::ExtraBranchRefs => (17, 'e', 's'),
        FeatureName::EmailPrivacy => (13, 'e', 'y'),
    }
}

proof fn lemma_key_shape(n: FeatureName)
    ensures
        feature_key(n).len() == key_shape(n).0,
        feature_key(n)[0] == key_shape(n).1,
        feature_key(n)[feature_key(n).len() - 1] == key_shape(n).2,
{
    match n {
        FeatureName::Blame => {
            reveal_strlit("blame");
        },
        FeatureName::Snapshot => {
            reveal_strlit("snapshot");
        },
        FeatureName::Search => {
            reveal_strlit("search");
        },
        FeatureName::Grep => {
            reveal_strlit("grep");
        },
        FeatureName::Pickaxe => {
            reveal_strlit("pickaxe");
        },
        FeatureName::ShowSizes => {
            reveal_strlit("show-sizes");
        },
        FeatureName::Pathinfo => {
            reveal_strlit("pathinfo");
        },
        FeatureName::Forks => {
            reveal_strlit("forks");
        },
        FeatureName::Actions => {
            reveal_strlit("actions");
        },
        FeatureName::Ctags => {
            reveal_strlit("ctags");
        },
        FeatureName::Patches => {
            reveal_strlit("patches");
        },
        FeatureName::Avatar => {
            reveal_strlit("avatar");
        },
        FeatureName::Timed => {
            reveal_strlit("timed");
        },
        FeatureName::JavascriptActions => {
            reveal_strlit("javascript-actions");
        },
        FeatureName::JavascriptTimezone => {
            reveal_strlit("javascript-timezone");
        },
        FeatureName::Highlight => {
            reveal_strlit("highlight");
        },
        FeatureName::RemoteHeads => {
            reveal_strlit("remote_heads");
        },
        FeatureName::ExtraBranchRefs => {
            reveal_strlit("extra-branch-refs");
        },
        FeatureName::EmailPrivacy => {
            reveal_strlit("email-privacy");
        },
    }
}

proof fn lemma_keys_distinct()
    ensures
        forall|a: FeatureName, b: FeatureName| #[trigger] feature_key(a) == #[trigger] feature_key(b) ==> a == b,
{
    assert forall|a: FeatureName, b: FeatureName| #[trigger] feature_key(a) == #[trigger] feature_key(b) implies a == b by {
        lemma_key_shape(a);
        lemma_key_shape(b);
    }
}

/// A layer that sets nothing leaves any settings as they were.
pub proof fn lemma_empty_layer_identity(s: SettingsView, empty: SettingsLayer)
    requires
        empty.projectroot is None,
        empty.site_name is None,
        empty.logo is None,
        empty.favicon is None,
        empty.default_projects_order is None,
        empty.projects_list_description_width is None,
        empty.omit_age_column is None,
        empty.omit_owner is None,
        empty.fallback_encoding is None,
        empty.prevent_xss is None,
        empty.stylesheets is None,
        empty.git_base_url_list is None,
        empty.features@.len() == 0,
    ensures
        apply_layer(s, empty) == s,
{
}

/// A layer that sets only the stylesheets and the owner flag changes only
/// those: the stylesheets become exactly its list, the flag its value, and
/// every other value and every feature stays.
pub proof fn lemma_layer_sets_only_its_values(s: SettingsView, l: SettingsLayer)
    requires
        l.projectroot is None,
        l.site_name is None,
        l.logo is None,
        l.favicon is None,
        l.default_projects_order is None,
        l.projects_list_description_width is None,
        l.omit_age_column is None,
        l.fallback_encoding is None,
        l.prevent_xss is None,
        l.git_base_url_list is None,
        l.features@.len() == 0,
        l.stylesheets is Some,
        l.omit_owner is Some,
    ensures
        apply_layer(s, l) == (SettingsView {
            stylesheets: texts(l.stylesheets->0@),
            omit_owner: l.omit_owner->0,
            ..s
        }),
{
}

/// A repository that sets no override leaves the settings as they were.
pub proof fn lemma_no_overrides_identity(s: SettingsView)
    requires
        s.features.len() == all_features().len(),
    ensures
        settings_for_project(s, Seq::new(all_features().len(), |_i: int| None::<Option<Seq<char>>>)) == s,
{
    let o = Seq::new(all_features().len(), |_i: int| None::<Option<Seq<char>>>);
    assert(settings_for_project(s, o).features =~= s.features);
}

/// A feature without a per-repository rule (search, pathinfo, forks, actions,
/// ctags, timed, and the javascript features) is never changed by a
/// repository, whatever it sets.
pub proof fn lemma_ruleless_feature_kept(s: SettingsView, o: Seq<Option<Option<Seq<char>>>>, n: FeatureName)
    requires
        s.features.len() == all_features().len(),
        rule_of(n) is None,
    ensures
        settings_for_project(s, o).features[feature_index(n)] == s.features[feature_index(n)],
{
    assert(all_features()[feature_index(n)] == n);
}

/// Every feature's key leads back to it: `from_key(as_key(n))` is `n`.
pub proof fn lemma_feature_key_round_trip(n: FeatureName)
    ensures
        find_feature(all_features(), feature_key(n)) == Some(n),
{
    lemma_keys_distinct();
    reveal_with_fuel(find_feature, 20);
}

} // verus!
