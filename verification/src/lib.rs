//! Layered application configuration: a directory of YAML documents is merged
//! with environment-variable overrides into one immutable snapshot, queried
//! through typed getters.
//!
//! The merge engine itself is the `config` crate; this library selects the
//! documents, drives the build, and proves what the typed accessors return in
//! terms of a model of the merged tree.

pub mod accessor;
pub mod coerce;
pub mod depth;
pub mod envmap;
pub mod errors;
pub mod model;
pub mod paths;
pub mod snapshot;

pub use accessor::Accessor;
pub use errors::ConfError;
pub use model::ConfItem;
pub use paths::select_yaml_paths;
pub use snapshot::Snapshot;
pub use snapshot::build_snapshot;
