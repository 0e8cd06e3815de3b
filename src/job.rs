//! Jobs as the server lists them.

use vstd::prelude::*;

verus! {

/// Ball Color corresponding to a build status
#[derive(Debug, Clone, Copy, PartialEq, Eq, Structural)]
pub enum BallColor {
    /// Success
    Blue,
    /// Success, and build is on-going
    BlueAnime,
    /// Unstable
    Yellow,
    /// Unstable, and build is on-going
    YellowAnime,
    /// Failure
    Red,
    /// Failure, and build is on-going
    RedAnime,
    /// Catch-all for disabled, aborted, not yet build
    Grey,
    /// Catch-all for disabled, aborted, not yet build, and build is on-going
    GreyAnime,
    /// Disabled
    Disabled,
    /// Disabled, and build is on-going
    DisabledAnime,
    /// Aborted
    Aborted,
    /// Aborted, and build is on-going
    AbortedAnime,
    /// Not Build
    NotBuilt,
    /// Not Build, and build is on-going
    NotBuiltAnime,
}

/// Short Job that is used in lists and links from other structs
#[derive(Debug, Clone)]
pub struct ShortJob {
    /// Name of the job
    pub name: String,
    /// URL for the job
    pub url: String,
    /// Ball Color for the status of the job
    pub color: BallColor,
}

} // verus!
