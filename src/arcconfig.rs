//! Finding the repository's configuration file by walking up from the working
//! directory, one directory at a time.
use vstd::prelude::*;

verus! {

/// What looking for the configuration file in one directory found.
#[derive(Clone, Debug, PartialEq, Eq)]
pub enum Probe {
    /// No such file there.
    Missing,
    /// The file is there but could not be opened.
    Unopenable { detail: String },
    /// The file is there but does not hold the expected settings.
    Unusable,
    /// The file holds the expected settings, with this Phabricator address if
    /// it names one.
    Usable { phab_uri: Option<String> },
}

/// Why no configuration was found.
#[derive(Clone, Debug, PartialEq, Eq)]
pub enum ArcConfigError {
    /// The file in a directory could not be opened.
    Open { detail: String },
    /// No directory up to the root holds a usable file.
    NotFound,
}

/// What to do after probing one directory.
#[derive(Clone, Debug, PartialEq, Eq)]
pub enum Next {
    /// The configuration is in the directory just probed.
    Found { phab_uri: Option<String> },
    /// Probe the parent directory.
    Ascend,
    /// Stop the search.
    Fail(ArcConfigError),
}

/// One step of the search: a usable file ends it; a missing or unusable one sends
/// it to the parent directory, and ends it where there is none; a file that cannot
/// be opened ends it with that failure.
pub fn next_step(probe: Probe, has_parent: bool) -> (r: Next)
    ensures
        match probe {
            Probe::Usable { phab_uri } => r == Next::Found { phab_uri },
            Probe::Unopenable { detail } => r == Next::Fail(ArcConfigError::Open { detail }),
            _ => (has_parent ==> r == Next::Ascend) && (!has_parent ==> r == Next::Fail(
                ArcConfigError::NotFound,
            )),
        },
{
    match probe {
        Probe::Usable { phab_uri } => Next::Found { phab_uri },
        Probe::Unopenable { detail } => Next::Fail(ArcConfigError::Open { detail }),
        _ => if has_parent {
            Next::Ascend
        } else {
            Next::Fail(ArcConfigError::NotFound)
        },
    }
}

} // verus!
