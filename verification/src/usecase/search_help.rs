//! The search-help use case (gitweb's `git_search_help`): the documented
//! search types, the `grep` and `pickaxe` entries gated behind their features.

use vstd::prelude::*;

use crate::model::search_help::{help_topics, topics_for, SearchHelpTopic};
use crate::model::settings::{feature_enabled, feature_index, FeatureName, Settings};

verus! {

/// The assembled help page: its topics, in order.
#[derive(Debug, Clone, PartialEq, Eq)]
pub struct SearchHelpView {
    topics: Vec<SearchHelpTopic>,
}

impl SearchHelpView {
    /// The topics.
    pub closed spec fn spec_topics(&self) -> Seq<SearchHelpTopic> {
        self.topics@
    }

    /// The help topics, in document order.
    pub fn topics(&self) -> (r: &[SearchHelpTopic])
        ensures
            r@ == self.spec_topics(),
    {
        self.topics.as_slice()
    }
}

/// Assembles the help page from the site's `grep` and `pickaxe` gates.
pub fn assemble_search_help(settings: &Settings) -> (r: SearchHelpView)
    ensures
        r.spec_topics() == topics_for(
            feature_enabled(settings@.features[feature_index(FeatureName::Grep)]),
            feature_enabled(settings@.features[feature_index(FeatureName::Pickaxe)]),
        ),
{
    let grep_enabled: bool = settings.feature(FeatureName::Grep).enabled();
    let pickaxe_enabled: bool = settings.feature(FeatureName::Pickaxe).enabled();
    SearchHelpView { topics: help_topics(grep_enabled, pickaxe_enabled) }
}

} // verus!
