//! Typed client pieces for a continuous-integration server's REST API: the
//! resource-path model with its renderer and parser, the tree query builder,
//! and the client's configuration.

pub mod builds;
pub mod client;
pub mod errors;
pub mod jenkins;
pub mod job;
pub mod laws;
pub mod links;
pub mod parse;
pub mod path;
pub mod server_error;
pub mod text;
pub mod tree;
pub mod view;

pub use builds::{Artifact, BuildNumber, BuildStatus};
pub use errors::{Action, ExpectedType, InvalidUrl};
pub use jenkins::{Jenkins, JenkinsBuilder, SetupError, User};
pub use path::{Name, Path};
pub use tree::{AdvancedQuery, TreeBuilder, TreeQueryParam};
