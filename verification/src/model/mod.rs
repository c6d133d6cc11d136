//! Entities and pure rules.

pub mod action;
pub mod object_id;
pub mod object_kind;
pub mod ref_name;
pub mod reference;
pub mod safety;
pub mod remote;
pub mod search_help;
pub mod section;
pub mod request;
pub mod routing;
pub mod settings;
pub mod signature;
pub mod timestamp;
pub mod age;
pub mod file_mode;
pub mod tag;
pub mod tag_age;
pub mod tree;
pub mod untabify;
pub mod url;
pub mod snapshot;
pub mod chop;
pub mod search_pattern;
pub mod search_snippet;
pub mod commit;
pub mod commit_date;
pub mod ref_order;
pub mod blob;
pub mod project_info;
pub mod object_redirect;
pub mod object_dispatch;
pub mod blame;
pub mod settings_laws;
pub mod project;
pub mod project_filter;
pub mod forks;
pub mod project_order;
pub mod message_body;
pub mod ref_marker;
pub mod change;
pub mod diff;
pub mod file_change;
pub mod commitdiff;
pub mod grep_pattern;
pub mod pickaxe_pattern;
pub mod grep;
pub mod pickaxe;
pub mod feed;
pub mod patch;
pub mod commitdiff_plain;
pub mod blobdiff_plain;
pub mod diffstat;
pub mod format_patch;
pub mod encoding;
pub mod content_type;
