//! The gitweb domain: request validation, configuration resolution, the
//! entity rules gitweb applies to git data, and the view-models the use cases
//! assemble from already-read repository data.

pub mod error;
pub mod model;
pub mod port;
pub mod text;
pub mod usecase;
