//! Process-wide configuration values, each parsed once per round from the
//! corresponding environment setting's raw value.  The caller reads the
//! environment and hands the value over as a plain `Option<&str>`.

use vstd::prelude::*;
use crate::text::ci_match;
use crate::text::matches_keyword;
use crate::text::str_eq;

verus! {

/// The view of an optional raw setting value.
pub open spec fn setting_view(v: Option<&str>) -> Option<Seq<char>> {
    match v {
        Some(s) => Some(s@),
        None => None,
    }
}

/// How containers with a newer image digest are handled.
/// - `Disabled`: do not check for updates.
/// - `Notify`: check for new digests, but only report them.
/// - `Update`: recreate containers on their image's latest digest.
/// - `Label`: reserved for label-driven decisions; behaves as `Notify` today.
#[derive(Clone, Copy, Debug, PartialEq, Eq, Structural)]
pub enum ContainersUpdateMode {
    Disabled,
    Notify,
    Update,
    Label,
}

impl ContainersUpdateMode {
    /// The mode selected by a raw setting value: matched up to ASCII case,
    /// with `Disabled` for a missing or unrecognized value.
    pub open spec fn spec_from_setting(v: Option<Seq<char>>) -> ContainersUpdateMode {
        match v {
            Some(s) => if ci_match(s, "label"@) {
                ContainersUpdateMode::Label
            } else if ci_match(s, "update"@) {
                ContainersUpdateMode::Update
            } else if ci_match(s, "notify"@) {
                ContainersUpdateMode::Notify
            } else {
                ContainersUpdateMode::Disabled
            },
            None => ContainersUpdateMode::Disabled,
        }
    }

    /// Parse the update-mode selector from its raw setting value.
    pub fn from_setting(v: Option<&str>) -> (m: Self)
        ensures
            m == Self::spec_from_setting(setting_view(v)),
    {
        match v {
            Some(s) => {
                if matches_keyword(s, "label") {
                    ContainersUpdateMode::Label
                } else if matches_keyword(s, "update") {
                    ContainersUpdateMode::Update
                } else if matches_keyword(s, "notify") {
                    ContainersUpdateMode::Notify
                } else {
                    ContainersUpdateMode::Disabled
                }
            },
            None => ContainersUpdateMode::Disabled,
        }
    }

    /// The refresh phase of a round runs only when the mode is not `Disabled`.
    pub fn is_active(&self) -> (r: bool)
        ensures
            r == (*self != ContainersUpdateMode::Disabled),
    {
        match self {
            ContainersUpdateMode::Disabled => false,
            _ => true,
        }
    }
}

/// Which unused images the prune duty reclaims.
/// - `Disabled`: no image cleanup.
/// - `Dangling`: prune dangling images only.
/// - `All`: prune every unused image.
#[derive(Clone, Copy, Debug, PartialEq, Eq, Structural)]
pub enum ImagesPruneMode {
    Disabled,
    Dangling,
    All,
}

impl ImagesPruneMode {
    /// The mode selected by a raw setting value: matched up to ASCII case,
    /// with `Disabled` for a missing or unrecognized value.
    pub open spec fn spec_from_setting(v: Option<Seq<char>>) -> ImagesPruneMode {
        match v {
            Some(s) => if ci_match(s, "all"@) {
                ImagesPruneMode::All
            } else if ci_match(s, "dangling"@) {
                ImagesPruneMode::Dangling
            } else {
                ImagesPruneMode::Disabled
            },
            None => ImagesPruneMode::Disabled,
        }
    }

    /// Parse the images-prune selector from its raw setting value.
    pub fn from_setting(v: Option<&str>) -> (m: Self)
        ensures
            m == Self::spec_from_setting(setting_view(v)),
    {
        match v {
            Some(s) => {
                if matches_keyword(s, "all") {
                    ImagesPruneMode::All
                } else if matches_keyword(s, "dangling") {
                    ImagesPruneMode::Dangling
                } else {
                    ImagesPruneMode::Disabled
                }
            },
            None => ImagesPruneMode::Disabled,
        }
    }

    /// The prune duty runs only when the mode is not `Disabled`.
    pub fn is_active(&self) -> (r: bool)
        ensures
            r == (*self != ImagesPruneMode::Disabled),
    {
        match self {
            ImagesPruneMode::Disabled => false,
            _ => true,
        }
    }

    /// The value of the `dangling` filter handed to the prune call: `true`
    /// restricts the prune to dangling images, `false` prunes all unused ones.
    pub fn dangling_filter(&self) -> (r: bool)
        ensures
            r == (*self == ImagesPruneMode::Dangling),
    {
        match self {
            ImagesPruneMode::Dangling => true,
            _ => false,
        }
    }
}

/// Whether a housekeeping round runs immediately at startup, before the
/// scheduled loop begins.
#[derive(Clone, Copy, Debug)]
pub struct RunOnStartup;

impl RunOnStartup {
    /// Enabled exactly when the raw setting value is the string `true`.
    pub fn from_setting(v: Option<&str>) -> (r: bool)
        ensures
            r == (match setting_view(v) {
                Some(s) => s == "true"@,
                None => false,
            }),
    {
        match v {
            Some(s) => str_eq(s, "true"),
            None => false,
        }
    }
}

/// Whether the agent performs its self-update duty at the end of a round.
#[derive(Clone, Copy, Debug)]
pub struct SelfUpdate;

impl SelfUpdate {
    /// Enabled unless the raw setting value is present and differs from the
    /// string `true`; a missing value keeps the duty enabled.
    pub fn from_setting(v: Option<&str>) -> (r: bool)
        ensures
            r == (match setting_view(v) {
                Some(s) => s == "true"@,
                None => true,
            }),
    {
        match v {
            Some(s) => str_eq(s, "true"),
            None => true,
        }
    }
}

/// Whether the build-cache prune duty runs during a round.
#[derive(Clone, Copy, Debug)]
pub struct BuildCachePrune;

impl BuildCachePrune {
    /// Enabled exactly when the raw setting value is the string `true`.
    pub fn from_setting(v: Option<&str>) -> (r: bool)
        ensures
            r == (match setting_view(v) {
                Some(s) => s == "true"@,
                None => false,
            }),
    {
        match v {
            Some(s) => str_eq(s, "true"),
            None => false,
        }
    }
}

} // verus!
