//! Views, which group jobs.

use vstd::prelude::*;

use vstd::view::View as _;

use crate::job::ShortJob;

verus! {

/// Helper type to act on a view
#[derive(Debug)]
pub struct ViewName<'a>(pub &'a str);

impl<'a> From<&'a str> for ViewName<'a> {
    fn from(v: &'a str) -> (r: ViewName<'a>) {
        ViewName(v)
    }
}

impl<'a> vstd::std_specs::convert::FromSpecImpl<&'a str> for ViewName<'a> {
    open spec fn obeys_from_spec() -> bool {
        true
    }

    open spec fn from_spec(v: &'a str) -> ViewName<'a> {
        ViewName(v)
    }
}

/// Trait implemented by specializations of view
pub trait View {
    /// The name of the view
    spec fn spec_name(&self) -> Seq<char>;

    /// Get the name of the view
    fn name(&self) -> (r: &str)
        ensures
            r@ == self.spec_name(),
    ;
}

/// A view with a list of jobs
#[derive(Debug)]
pub struct ListView {
    /// Description of the view
    pub description: Option<String>,
    /// Name of the view
    pub name: String,
    /// URL for the view
    pub url: String,
    /// List of jobs in the view
    pub jobs: Vec<ShortJob>,
}

impl View for ListView {
    open spec fn spec_name(&self) -> Seq<char> {
        self.name@
    }

    fn name(&self) -> (r: &str) {
        self.name.as_str()
    }
}

} // verus!
