//! Builds: their status, archived artifacts, and references to one build.

use vstd::prelude::*;

use crate::text::{decimal, push_decimal, str_eq};

verus! {

/// Status of a build
#[derive(Debug, Clone, Copy, PartialEq, Eq, Structural)]
pub enum BuildStatus {
    /// Successful build
    Success,
    /// Unstable build
    Unstable,
    /// Failed build
    Failure,
    /// Not yet built
    NotBuilt,
    /// Aborted build
    Aborted,
}

/// A file archived by a build
#[derive(Debug, Clone)]
pub struct Artifact {
    /// Displayed path
    pub display_path: Option<String>,
    /// File name
    pub file_name: String,
    /// Path to the file
    pub relative_path: String,
}

/// Reference to one build of a job: a number, or one of the server's aliases
#[derive(Debug, PartialEq)]
pub enum BuildNumber {
    /// Alias to last build
    LastBuild,
    /// Alias to last successful build
    LastSuccessfulBuild,
    /// Alias to last stable build
    LastStableBuild,
    /// Alias to last complete build
    LastCompletedBuild,
    /// Alias to last failed build
    LastFailedBuild,
    /// Alias to last unsuccessful build
    LastUnsuccessfulBuild,
    /// Build number
    Number(u32),
    /// Unknown alias, kept as it was given
    UnknownAlias(String),
}

/// The value of a `BuildNumber`, with an unknown alias as its characters.
pub enum BuildNumberView {
    LastBuild,
    LastSuccessfulBuild,
    LastStableBuild,
    LastCompletedBuild,
    LastFailedBuild,
    LastUnsuccessfulBuild,
    Number(u32),
    UnknownAlias(Seq<char>),
}

impl View for BuildNumber {
    type V = BuildNumberView;

    open spec fn view(&self) -> BuildNumberView {
        match self {
            BuildNumber::LastBuild => BuildNumberView::LastBuild,
            BuildNumber::LastSuccessfulBuild => BuildNumberView::LastSuccessfulBuild,
            BuildNumber::LastStableBuild => BuildNumberView::LastStableBuild,
            BuildNumber::LastCompletedBuild => BuildNumberView::LastCompletedBuild,
            BuildNumber::LastFailedBuild => BuildNumberView::LastFailedBuild,
            BuildNumber::LastUnsuccessfulBuild => BuildNumberView::LastUnsuccessfulBuild,
            BuildNumber::Number(n) => BuildNumberView::Number(*n),
            BuildNumber::UnknownAlias(s) => BuildNumberView::UnknownAlias(s@),
        }
    }
}

/// How a build reference is written in a URL: an alias as its camel-case
/// keyword, a number in decimal, an unknown alias as it was given.
pub open spec fn build_number_text(b: BuildNumberView) -> Seq<char> {
    match b {
        BuildNumberView::LastBuild => "lastBuild"@,
        BuildNumberView::LastSuccessfulBuild => "lastSuccessfulBuild"@,
        BuildNumberView::LastStableBuild => "lastStableBuild"@,
        BuildNumberView::LastCompletedBuild => "lastCompletedBuild"@,
        BuildNumberView::LastFailedBuild => "lastFailedBuild"@,
        BuildNumberView::LastUnsuccessfulBuild => "lastUnsuccessfulBuild"@,
        BuildNumberView::Number(n) => decimal(n as nat),
        BuildNumberView::UnknownAlias(s) => s,
    }
}

/// The build reference that a piece of text names: a known alias, or else an
/// unknown alias holding the text.
pub open spec fn build_number_of_text(s: Seq<char>) -> BuildNumberView {
    if s == "lastBuild"@ {
        BuildNumberView::LastBuild
    } else if s == "lastSuccessfulBuild"@ {
        BuildNumberView::LastSuccessfulBuild
    } else if s == "lastStableBuild"@ {
        BuildNumberView::LastStableBuild
    } else if s == "lastCompletedBuild"@ {
        BuildNumberView::LastCompletedBuild
    } else if s == "lastFailedBuild"@ {
        BuildNumberView::LastFailedBuild
    } else if s == "lastUnsuccessfulBuild"@ {
        BuildNumberView::LastUnsuccessfulBuild
    } else {
        BuildNumberView::UnknownAlias(s)
    }
}

impl BuildNumber {
    /// Appends how this reference is written in a URL.
    pub fn push_to(&self, out: &mut String)
        ensures
            final(out)@ == old(out)@ + build_number_text(self@),
    {
        match self {
            BuildNumber::LastBuild => out.append("lastBuild"),
            BuildNumber::LastSuccessfulBuild => out.append("lastSuccessfulBuild"),
            BuildNumber::LastStableBuild => out.append("lastStableBuild"),
            BuildNumber::LastCompletedBuild => out.append("lastCompletedBuild"),
            BuildNumber::LastFailedBuild => out.append("lastFailedBuild"),
            BuildNumber::LastUnsuccessfulBuild => out.append("lastUnsuccessfulBuild"),
            BuildNumber::Number(n) => push_decimal(out, *n),
            BuildNumber::UnknownAlias(s) => out.append(s.as_str()),
        }
    }

    /// How this reference is written in a URL.
    pub fn to_string(&self) -> (r: String)
        ensures
            r@ == build_number_text(self@),
    {
        let mut out = String::new();
        self.push_to(&mut out);
        assert(out@ =~= build_number_text(self@));
        out
    }

    /// The reference that `v` names: a known alias, or an unknown one.
    pub fn from_text(v: &str) -> (r: BuildNumber)
        ensures
            r@ == build_number_of_text(v@),
    {
        if str_eq(v, "lastBuild") {
            BuildNumber::LastBuild
        } else if str_eq(v, "lastSuccessfulBuild") {
            BuildNumber::LastSuccessfulBuild
        } else if str_eq(v, "lastStableBuild") {
            BuildNumber::LastStableBuild
        } else if str_eq(v, "lastCompletedBuild") {
            BuildNumber::LastCompletedBuild
        } else if str_eq(v, "lastFailedBuild") {
            BuildNumber::LastFailedBuild
        } else if str_eq(v, "lastUnsuccessfulBuild") {
            BuildNumber::LastUnsuccessfulBuild
        } else {
            BuildNumber::UnknownAlias(String::from_str(v))
        }
    }
}

impl Clone for BuildNumber {
    fn clone(&self) -> (r: Self)
        ensures
            r == *self,
    {
        match self {
            BuildNumber::LastBuild => BuildNumber::LastBuild,
            BuildNumber::LastSuccessfulBuild => BuildNumber::LastSuccessfulBuild,
            BuildNumber::LastStableBuild => BuildNumber::LastStableBuild,
            BuildNumber::LastCompletedBuild => BuildNumber::LastCompletedBuild,
            BuildNumber::LastFailedBuild => BuildNumber::LastFailedBuild,
            BuildNumber::LastUnsuccessfulBuild => BuildNumber::LastUnsuccessfulBuild,
            BuildNumber::Number(n) => BuildNumber::Number(*n),
            BuildNumber::UnknownAlias(s) => BuildNumber::UnknownAlias(s.clone()),
        }
    }
}

impl From<u32> for BuildNumber {
    fn from(v: u32) -> (r: BuildNumber) {
        BuildNumber::Number(v)
    }
}

impl vstd::std_specs::convert::FromSpecImpl<u32> for BuildNumber {
    open spec fn obeys_from_spec() -> bool {
        true
    }

    open spec fn from_spec(v: u32) -> BuildNumber {
        BuildNumber::Number(v)
    }
}

impl From<u8> for BuildNumber {
    fn from(v: u8) -> (r: BuildNumber) {
        BuildNumber::Number(v as u32)
    }
}

impl vstd::std_specs::convert::FromSpecImpl<u8> for BuildNumber {
    open spec fn obeys_from_spec() -> bool {
        true
    }

    open spec fn from_spec(v: u8) -> BuildNumber {
        BuildNumber::Number(v as u32)
    }
}

impl From<u16> for BuildNumber {
    fn from(v: u16) -> (r: BuildNumber) {
        BuildNumber::Number(v as u32)
    }
}

impl vstd::std_specs::convert::FromSpecImpl<u16> for BuildNumber {
    open spec fn obeys_from_spec() -> bool {
        true
    }

    open spec fn from_spec(v: u16) -> BuildNumber {
        BuildNumber::Number(v as u32)
    }
}

} // verus!
