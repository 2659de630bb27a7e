//! The read-only inventory snapshot of one container, and the skip rules the
//! refresh orchestrator applies to it before any runtime call is made.

use vstd::prelude::*;
use vstd::string::StrSliceExecFns;
use crate::text::is_prefix_of;
use crate::text::starts_with_prefix;

verus! {

/// The lifecycle state a container was reported in when the inventory was
/// listed.
#[derive(Clone, Copy, Debug, PartialEq, Eq, Structural)]
pub enum LifecycleState {
    Created,
    Running,
    Paused,
    Restarting,
    Stopping,
    Exited,
    Removing,
    Dead,
    Unknown,
}

/// One entry of the container inventory list.  Every field is reported by the
/// runtime and may be absent; records with absent mandatory fields are
/// skipped, never processed.
#[derive(Debug)]
pub struct ContainerRecord {
    /// The container's identifier.
    pub id: Option<String>,
    /// The names the runtime reports for the container.
    pub names: Option<Vec<String>>,
    /// The lifecycle state at listing time.
    pub state: Option<LifecycleState>,
    /// The image reference (repository, optionally with a tag) the container
    /// was created from.
    pub image: Option<String>,
    /// The content identifier of the image the container currently uses.
    pub image_id: Option<String>,
}

/// Why the orchestrator skipped a container without touching it.
#[derive(Clone, Copy, Debug, PartialEq, Eq, Structural)]
pub enum SkipReason {
    /// The record carries no container identifier.
    MissingId,
    /// The container is the agent's own: its identifier starts with the
    /// configured self-identity.
    SelfContainer,
    /// The record carries no name.
    MissingName,
    /// The record carries no lifecycle state.
    MissingState,
    /// The record carries no image reference.
    MissingImage,
    /// The record carries no image content identifier.
    MissingImageId,
}

/// A container identifier belongs to the agent itself when a non-empty
/// self-identity is configured and is a prefix of the identifier.
pub open spec fn is_self(id: Seq<char>, identity: Option<Seq<char>>) -> bool {
    match identity {
        Some(p) => p.len() > 0 && is_prefix_of(p, id),
        None => false,
    }
}

/// The skip rules, applied in order: a missing identifier, the agent's own
/// container, then a missing name, state, image reference, or image content
/// identifier.  `None` means the record is eligible for a digest check.
pub open spec fn spec_classify(r: ContainerRecord, identity: Option<Seq<char>>) -> Option<
    SkipReason,
> {
    if r.id is None {
        Some(SkipReason::MissingId)
    } else if is_self(r.id->0@, identity) {
        Some(SkipReason::SelfContainer)
    } else if r.names is None {
        Some(SkipReason::MissingName)
    } else if r.state is None {
        Some(SkipReason::MissingState)
    } else if r.image is None {
        Some(SkipReason::MissingImage)
    } else if r.image_id is None {
        Some(SkipReason::MissingImageId)
    } else {
        None
    }
}

/// A record missing its identifier, name, state, image reference or image
/// content identifier is always skipped: it never becomes a session and no
/// runtime call is made for it.
pub proof fn lemma_missing_metadata_is_skipped(r: ContainerRecord, identity: Option<Seq<char>>)
    requires
        r.id is None || r.names is None || r.state is None || r.image is None || r.image_id
            is None,
    ensures
        spec_classify(r, identity) is Some,
{
}

/// The agent's own container — one whose identifier starts with the
/// configured non-empty self-identity — is always skipped, whatever the
/// update mode: it never reaches the digest check or the refresh machine.
pub proof fn lemma_own_container_is_skipped(r: ContainerRecord, identity: Option<Seq<char>>)
    requires
        r.id is Some,
        is_self(r.id->0@, identity),
    ensures
        spec_classify(r, identity) == Some(SkipReason::SelfContainer),
{
}

/// The view of the optional configured self-identity.
pub open spec fn identity_view(identity: Option<&String>) -> Option<Seq<char>> {
    match identity {
        Some(p) => Some(p@),
        None => None,
    }
}

/// Apply the skip rules to one inventory record.
pub fn classify(r: &ContainerRecord, identity: Option<&String>) -> (res: Option<SkipReason>)
    ensures
        res == spec_classify(*r, identity_view(identity)),
{
    let id = match &r.id {
        Some(id) => id,
        None => {
            return Some(SkipReason::MissingId);
        },
    };
    let own = match identity {
        Some(p) => p.as_str().unicode_len() > 0 && starts_with_prefix(id.as_str(), p.as_str()),
        None => false,
    };
    if own {
        return Some(SkipReason::SelfContainer);
    }
    if r.names.is_none() {
        return Some(SkipReason::MissingName);
    }
    if r.state.is_none() {
        return Some(SkipReason::MissingState);
    }
    if r.image.is_none() {
        return Some(SkipReason::MissingImage);
    }
    if r.image_id.is_none() {
        return Some(SkipReason::MissingImageId);
    }
    None
}

} // verus!
