//! Helpers to build advanced queries: the public description of a resource
//! to fetch, and the tree query builder.

use vstd::prelude::*;

use crate::builds::BuildNumber;
use crate::path::{Name, Path as PrivatePath};

pub use crate::errors::{Action, ExpectedType};
pub use crate::tree::{AdvancedQuery, IntoTree, TreeBuilder, TreeQueryParam};

verus! {

/// Path to an object of the server, with names as they appear in its URLs
#[derive(Debug, PartialEq)]
pub enum Path<'a> {
    /// Path to the home
    Home,
    /// Path to a view
    View {
        /// The view name
        name: &'a str,
    },
    /// Path to a job
    Job {
        /// The job name
        name: &'a str,
        /// The job configuration
        configuration: Option<&'a str>,
    },
    /// Path to a job build
    Build {
        /// The job name
        job_name: &'a str,
        /// The build number
        number: BuildNumber,
        /// The build configuration
        configuration: Option<&'a str>,
    },
    /// Path to the queue
    Queue,
    /// Path to an item in the queue
    QueueItem {
        /// The item id
        id: i32,
    },
    /// Path to a build's maven artifacts
    MavenArtifactRecord {
        /// The job name
        job_name: &'a str,
        /// The build number
        number: BuildNumber,
        /// The build configuration
        configuration: Option<&'a str>,
    },
    /// Path to the computers linked to the server
    Computers,
    /// Path to a computer
    Computer {
        /// The computer name
        name: &'a str,
    },
    /// Unknown path
    Raw {
        /// The path itself
        path: &'a str,
    },
}

pub open spec fn encoded_option<'a>(n: Option<&'a str>) -> Option<Name<'a>> {
    match n {
        Some(n) => Some(Name::UrlEncodedName(n)),
        None => None,
    }
}

/// The resource path that a public path stands for: every name is taken
/// as already encoded.
pub open spec fn private_path<'a>(value: Path<'a>) -> PrivatePath<'a> {
    match value {
        Path::Home => PrivatePath::Home,
        Path::View { name } => PrivatePath::View { name: Name::UrlEncodedName(name) },
        Path::Job { name, configuration } => PrivatePath::Job {
            name: Name::UrlEncodedName(name),
            configuration: encoded_option(configuration),
        },
        Path::Build { job_name, number, configuration } => PrivatePath::Build {
            job_name: Name::UrlEncodedName(job_name),
            number,
            configuration: encoded_option(configuration),
        },
        Path::Queue => PrivatePath::Queue,
        Path::QueueItem { id } => PrivatePath::QueueItem { id },
        Path::MavenArtifactRecord { job_name, number, configuration } =>
            PrivatePath::MavenArtifactRecord {
            job_name: Name::UrlEncodedName(job_name),
            number,
            configuration: encoded_option(configuration),
        },
        Path::Computers => PrivatePath::Computers,
        Path::Computer { name } => PrivatePath::Computer { name: Name::UrlEncodedName(name) },
        Path::Raw { path } => PrivatePath::Raw { path },
    }
}

fn encode_option<'a>(n: Option<&'a str>) -> (r: Option<Name<'a>>)
    ensures
        r == encoded_option(n),
{
    match n {
        Some(n) => Some(Name::UrlEncodedName(n)),
        None => None,
    }
}

impl<'a> From<Path<'a>> for PrivatePath<'a> {
    fn from(value: Path<'a>) -> (r: PrivatePath<'a>) {
        match value {
            Path::Home => PrivatePath::Home,
            Path::View { name } => PrivatePath::View { name: Name::UrlEncodedName(name) },
            Path::Job { name, configuration } => PrivatePath::Job {
                name: Name::UrlEncodedName(name),
                configuration: encode_option(configuration),
            },
            Path::Build { job_name, number, configuration } => PrivatePath::Build {
                job_name: Name::UrlEncodedName(job_name),
                number,
                configuration: encode_option(configuration),
            },
            Path::Queue => PrivatePath::Queue,
            Path::QueueItem { id } => PrivatePath::QueueItem { id },
            Path::MavenArtifactRecord { job_name, number, configuration } =>
                PrivatePath::MavenArtifactRecord {
                job_name: Name::UrlEncodedName(job_name),
                number,
                configuration: encode_option(configuration),
            },
            Path::Computers => PrivatePath::Computers,
            Path::Computer { name } => PrivatePath::Computer { name: Name::UrlEncodedName(name) },
            Path::Raw { path } => PrivatePath::Raw { path },
        }
    }
}

impl<'a> vstd::std_specs::convert::FromSpecImpl<Path<'a>> for PrivatePath<'a> {
    open spec fn obeys_from_spec() -> bool {
        true
    }

    open spec fn from_spec(v: Path<'a>) -> PrivatePath<'a> {
        private_path(v)
    }
}

} // verus!
