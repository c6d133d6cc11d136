//! Use cases: the application logic that drives the ports and assembles
//! framework-free view-models for the boundaries to render.

pub mod log_generic;
pub mod shortlog;
pub mod heads;
pub mod tags;
pub mod history;
pub mod search;
pub mod tree;
pub mod remotes;
pub mod snapshot;
pub mod search_help;
pub mod tag;
pub mod summary;
pub mod object;
pub mod object_dispatch;
pub mod blame;
pub mod project_list;
pub mod forks;
pub mod project_index;
pub mod opml;
pub mod ref_markers;
pub mod log;
pub mod commit;
pub mod grep;
pub mod pickaxe;
pub mod feed;
pub mod commitdiff;
pub mod commitdiff_plain;
pub mod blobdiff;
pub mod blobdiff_plain;
pub mod patch;
pub mod blob;
pub mod blob_plain;
