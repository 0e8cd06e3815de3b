//! Kinds of resources that a link is expected to address, actions on
//! objects, and the error of a link that does not address what it should.

use vstd::prelude::*;

verus! {

/// Possible type of URL expected in links between items
#[derive(Debug, Clone, Copy, PartialEq, Eq, Structural)]
pub enum ExpectedType {
    /// a `Build`
    Build,
    /// a `Job`
    Job,
    /// a `QueueItem`
    QueueItem,
    /// a `View`
    View,
    /// a `ShortView`
    ShortView,
    /// a `MavenArtifactRecord`
    MavenArtifactRecord,
}

/// The name of a kind of resource, as messages show it.
pub open spec fn expected_type_text(e: ExpectedType) -> Seq<char> {
    match e {
        ExpectedType::Build => "Build"@,
        ExpectedType::Job => "Job"@,
        ExpectedType::QueueItem => "QueueItem"@,
        ExpectedType::View => "View"@,
        ExpectedType::ShortView => "ShortView"@,
        ExpectedType::MavenArtifactRecord => "MavenArtifactRecord"@,
    }
}

impl ExpectedType {
    /// The name of this kind of resource.
    pub fn to_string(&self) -> (r: String)
        ensures
            r@ == expected_type_text(*self),
    {
        let s = match self {
            ExpectedType::Build => "Build",
            ExpectedType::Job => "Job",
            ExpectedType::QueueItem => "QueueItem",
            ExpectedType::View => "View",
            ExpectedType::ShortView => "ShortView",
            ExpectedType::MavenArtifactRecord => "MavenArtifactRecord",
        };
        String::from_str(s)
    }
}

/// Possible action done on an object
#[derive(Debug, Clone, Copy, PartialEq, Eq)]
pub enum Action {
    /// Get a field
    GetField(&'static str),
    /// Get linked item
    GetLinkedItem(ExpectedType),
}

/// How an action is described in messages.
pub open spec fn action_text(a: Action) -> Seq<char> {
    match a {
        Action::GetField(field) => "get field '"@ + field@ + "'"@,
        Action::GetLinkedItem(item) => "get linked item '"@ + expected_type_text(item) + "'"@,
    }
}

impl Action {
    /// The description of this action.
    pub fn to_string(&self) -> (r: String)
        ensures
            r@ == action_text(*self),
    {
        let mut out = String::new();
        match self {
            Action::GetField(field) => {
                out.append("get field '");
                out.append(field);
            },
            Action::GetLinkedItem(item) => {
                out.append("get linked item '");
                let t = item.to_string();
                out.append(t.as_str());
            },
        }
        out.append("'");
        assert(out@ =~= action_text(*self));
        out
    }
}

/// A link that does not address the kind of resource it should
#[derive(Debug, Clone, PartialEq)]
pub struct InvalidUrl {
    /// URL found
    pub url: String,
    /// Expected URL type
    pub expected: ExpectedType,
}

} // verus!
