//! Following links found in the server's responses: each record that links
//! to another resource holds its URL, and the resource to request next is
//! derived from the path that URL parses to. A URL that does not address
//! the kind of resource the link should is an invalid URL of that kind.

use vstd::prelude::*;

use crate::errors::{ExpectedType, InvalidUrl};
use crate::jenkins::{strip_base, Jenkins};
use crate::parse::parse_spec;
use crate::path::{path_view, Name, NameView, Path, PathView};

verus! {

/// What a link URL parses to, for this client.
pub open spec fn link_outcome(jenkins: &Jenkins, url: Seq<char>) -> Result<PathView, ExpectedType> {
    parse_spec(strip_base(jenkins.spec_url(), url))
}

/// The invalid-URL error for `url` and kind `kind`.
pub open spec fn is_invalid(e: InvalidUrl, url: Seq<char>, kind: ExpectedType) -> bool {
    e.url@ == url && e.expected == kind
}

/// A build, directly or in a folder.
pub open spec fn addresses_build(v: PathView) -> bool {
    match v {
        PathView::Build { .. } => true,
        PathView::InFolder { path, .. } => (*path) is Build,
        _ => false,
    }
}

/// The job that a build belongs to, keeping its folder.
pub open spec fn job_of_build(v: PathView) -> Option<PathView> {
    match v {
        PathView::Build { job_name, configuration, .. } => Some(
            PathView::Job { name: job_name, configuration },
        ),
        PathView::InFolder { folder_name, path } => match *path {
            PathView::Build { job_name, configuration, .. } => Some(
                PathView::InFolder {
                    folder_name,
                    path: Box::new(PathView::Job { name: job_name, configuration }),
                },
            ),
            _ => None,
        },
        _ => None,
    }
}

/// The console text of a build, with its folder.
pub open spec fn console_of_build(v: PathView) -> Option<PathView> {
    match v {
        PathView::Build { job_name, number, configuration } => Some(
            PathView::ConsoleText { job_name, number, configuration, folder_name: None },
        ),
        PathView::InFolder { folder_name, path } => match *path {
            PathView::Build { job_name, number, configuration } => Some(
                PathView::ConsoleText {
                    job_name,
                    number,
                    configuration,
                    folder_name: Some(folder_name),
                },
            ),
            _ => None,
        },
        _ => None,
    }
}

fn invalid_url(url: &str, expected: ExpectedType) -> (e: InvalidUrl)
    ensures
        is_invalid(e, url@, expected),
{
    InvalidUrl { url: String::from_str(url), expected }
}

/// The path to request for a link to a build: the build itself, directly
/// or in a folder.
pub fn build_path<'a>(jenkins: &Jenkins, url: &'a str) -> (r: Result<Path<'a>, InvalidUrl>)
    ensures
        match link_outcome(jenkins, url@) {
            Ok(v) => if addresses_build(v) {
                r matches Ok(p) && p@ == v
            } else {
                r matches Err(e) && is_invalid(e, url@, ExpectedType::Build)
            },
            Err(_) => r matches Err(e) && is_invalid(e, url@, ExpectedType::Build),
        },
{
    proof {
        reveal_with_fuel(path_view, 2);
    }
    match jenkins.url_to_path(url) {
        Ok(p) => {
            let found = match &p {
                Path::Build { .. } => true,
                Path::InFolder { path, .. } => match **path {
                    Path::Build { .. } => true,
                    _ => false,
                },
                _ => false,
            };
            if found {
                Ok(p)
            } else {
                Err(invalid_url(url, ExpectedType::Build))
            }
        },
        Err(_) => Err(invalid_url(url, ExpectedType::Build)),
    }
}

/// The path to request for the job that a build link belongs to.
pub fn job_of_build_path<'a>(jenkins: &Jenkins, url: &'a str) -> (r: Result<Path<'a>, InvalidUrl>)
    ensures
        match link_outcome(jenkins, url@) {
            Ok(v) => match job_of_build(v) {
                Some(w) => r matches Ok(p) && p@ == w,
                None => r matches Err(e) && is_invalid(e, url@, ExpectedType::Build),
            },
            Err(_) => r matches Err(e) && is_invalid(e, url@, ExpectedType::Build),
        },
{
    proof {
        reveal_with_fuel(path_view, 2);
    }
    match jenkins.url_to_path(url) {
        Ok(Path::Build { job_name, configuration, .. }) => Ok(
            Path::Job { name: job_name, configuration },
        ),
        Ok(Path::InFolder { folder_name, path }) => match *path {
            Path::Build { job_name, configuration, .. } => Ok(
                Path::InFolder {
                    folder_name,
                    path: Box::new(Path::Job { name: job_name, configuration }),
                },
            ),
            _ => Err(invalid_url(url, ExpectedType::Build)),
        },
        _ => Err(invalid_url(url, ExpectedType::Build)),
    }
}

/// The path to request for the console text of a build link.
pub fn console_of_build_path<'a>(jenkins: &Jenkins, url: &'a str) -> (r: Result<
    Path<'a>,
    InvalidUrl,
>)
    ensures
        match link_outcome(jenkins, url@) {
            Ok(v) => match console_of_build(v) {
                Some(w) => r matches Ok(p) && p@ == w,
                None => r matches Err(e) && is_invalid(e, url@, ExpectedType::Build),
            },
            Err(_) => r matches Err(e) && is_invalid(e, url@, ExpectedType::Build),
        },
{
    proof {
        reveal_with_fuel(path_view, 2);
    }
    match jenkins.url_to_path(url) {
        Ok(Path::Build { job_name, number, configuration }) => Ok(
            Path::ConsoleText { job_name, number, configuration, folder_name: None },
        ),
        Ok(Path::InFolder { folder_name, path }) => match *path {
            Path::Build { job_name, number, configuration } => Ok(
                Path::ConsoleText {
                    job_name,
                    number,
                    configuration,
                    folder_name: Some(folder_name),
                },
            ),
            _ => Err(invalid_url(url, ExpectedType::Build)),
        },
        _ => Err(invalid_url(url, ExpectedType::Build)),
    }
}

/// The path to request for a link to a view.
pub fn view_path<'a>(jenkins: &Jenkins, url: &'a str) -> (r: Result<Path<'a>, InvalidUrl>)
    ensures
        match link_outcome(jenkins, url@) {
            Ok(v) => if v is View {
                r matches Ok(p) && p@ == v
            } else {
                r matches Err(e) && is_invalid(e, url@, ExpectedType::View)
            },
            Err(_) => r matches Err(e) && is_invalid(e, url@, ExpectedType::View),
        },
{
    match jenkins.url_to_path(url) {
        Ok(Path::View { name }) => Ok(Path::View { name }),
        _ => Err(invalid_url(url, ExpectedType::View)),
    }
}

/// The path to request for a link to a queue item.
pub fn queue_item_path<'a>(jenkins: &Jenkins, url: &'a str) -> (r: Result<Path<'a>, InvalidUrl>)
    ensures
        match link_outcome(jenkins, url@) {
            Ok(v) => if v is QueueItem {
                r matches Ok(p) && p@ == v
            } else {
                r matches Err(e) && is_invalid(e, url@, ExpectedType::QueueItem)
            },
            Err(_) => r matches Err(e) && is_invalid(e, url@, ExpectedType::QueueItem),
        },
{
    match jenkins.url_to_path(url) {
        Ok(Path::QueueItem { id }) => Ok(Path::QueueItem { id }),
        _ => Err(invalid_url(url, ExpectedType::QueueItem)),
    }
}

/// The path to request for a link to a job.
pub fn job_path<'a>(jenkins: &Jenkins, url: &'a str) -> (r: Result<Path<'a>, InvalidUrl>)
    ensures
        match link_outcome(jenkins, url@) {
            Ok(v) => if v is Job {
                r matches Ok(p) && p@ == v
            } else {
                r matches Err(e) && is_invalid(e, url@, ExpectedType::Job)
            },
            Err(_) => r matches Err(e) && is_invalid(e, url@, ExpectedType::Job),
        },
{
    match jenkins.url_to_path(url) {
        Ok(Path::Job { name, configuration }) => Ok(Path::Job { name, configuration }),
        _ => Err(invalid_url(url, ExpectedType::Job)),
    }
}

/// The name of the job that a link addresses, when it addresses a job
/// itself rather than one of its configurations: what enabling, disabling,
/// building and adding to a view act on.
pub fn job_name_of<'a>(jenkins: &Jenkins, url: &'a str) -> (r: Result<Name<'a>, InvalidUrl>)
    ensures
        match link_outcome(jenkins, url@) {
            Ok(PathView::Job { name, configuration: None }) => r matches Ok(n) && n@ == name,
            _ => r matches Err(e) && is_invalid(e, url@, ExpectedType::Job),
        },
{
    match jenkins.url_to_path(url) {
        Ok(Path::Job { name, configuration: None }) => Ok(name),
        _ => Err(invalid_url(url, ExpectedType::Job)),
    }
}

/// The path that adds the job `job_name` to the view that a link addresses.
pub fn add_job_to_view_path<'a>(jenkins: &Jenkins, view_url: &'a str, job_name: &'a str) -> (r:
    Result<Path<'a>, InvalidUrl>)
    ensures
        match link_outcome(jenkins, view_url@) {
            Ok(PathView::View { name }) => r matches Ok(p) && p@ == (PathView::AddJobToView {
                job_name: NameView::Plain(job_name@),
                view_name: name,
            }),
            _ => r matches Err(e) && is_invalid(e, view_url@, ExpectedType::View),
        },
{
    match jenkins.url_to_path(view_url) {
        Ok(Path::View { name }) => Ok(
            Path::AddJobToView { job_name: Name::Name(job_name), view_name: name },
        ),
        _ => Err(invalid_url(view_url, ExpectedType::View)),
    }
}

/// The path that removes the job `job_name` from the view that a link
/// addresses.
pub fn remove_job_from_view_path<'a>(
    jenkins: &Jenkins,
    view_url: &'a str,
    job_name: &'a str,
) -> (r: Result<Path<'a>, InvalidUrl>)
    ensures
        match link_outcome(jenkins, view_url@) {
            Ok(PathView::View { name }) => r matches Ok(p) && p@ == (PathView::RemoveJobFromView {
                job_name: NameView::Plain(job_name@),
                view_name: name,
            }),
            _ => r matches Err(e) && is_invalid(e, view_url@, ExpectedType::View),
        },
{
    match jenkins.url_to_path(view_url) {
        Ok(Path::View { name }) => Ok(
            Path::RemoveJobFromView { job_name: Name::Name(job_name), view_name: name },
        ),
        _ => Err(invalid_url(view_url, ExpectedType::View)),
    }
}

} // verus!
