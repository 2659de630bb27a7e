//! The per-container refresh session: one state machine that drives the
//! digest check and, when the update mode allows it, the
//! stop → remove → create → start recreation of a single container.
//!
//! The session never performs a runtime call itself.  Each step hands back
//! the next call to make (a [`RuntimeAction`]); the caller performs it and
//! feeds the result in as a [`RuntimeEvent`].  A failed stage moves the
//! session to a terminal `Done` phase from which nothing further is emitted.

use vstd::prelude::*;
use crate::modes::ContainersUpdateMode;
use crate::record::ContainerRecord;
use crate::record::LifecycleState;
use crate::record::SkipReason;
use crate::record::classify;
use crate::record::spec_classify;
use crate::snapshot::ContainerConfigSnapshot;
use crate::snapshot::CreatePayload;
use crate::snapshot::ImageDigestInfo;
use crate::snapshot::InspectData;
use crate::text::join_names;
use crate::text::normalize_reference;
use crate::text::spec_normalize_reference;

verus! {

/// How long a stop call waits before the runtime terminates the container
/// forcefully, in seconds.
pub const STOP_GRACE_SECONDS: u32 = 10;

/// A failure reported by the container runtime, wrapped as plain text.
#[derive(Debug)]
pub struct RuntimeError {
    pub message: String,
}

/// Whether a successful pull alone counts as a newer digest, or the content
/// identifiers are compared after the pull.
#[derive(Clone, Copy, Debug, PartialEq, Eq, Structural)]
pub enum DigestComparePolicy {
    /// Any successful pull is treated as a newer digest being available.
    TrustPull,
    /// The content identifier after the pull must differ from the one the
    /// container currently uses.
    CompareContentIds,
}

/// The configuration of one housekeeping round, constructed once at round
/// start and passed by reference; no component re-reads the environment.
#[derive(Debug)]
pub struct RoundSettings {
    pub update_mode: ContainersUpdateMode,
    pub compare: DigestComparePolicy,
    /// The identifier prefix of the agent's own container, when configured.
    pub self_identity: Option<String>,
}

/// The stage of the refresh at which a failure occurred.
#[derive(Clone, Copy, Debug, PartialEq, Eq, Structural)]
pub enum RefreshStage {
    ImageInspect,
    ImagePull,
    ContainerInspect,
    Stop,
    Remove,
    Create,
    Start,
}

/// The per-container result of one refresh round.
#[derive(Debug)]
pub enum RefreshOutcome {
    /// A skip rule rejected the container before any runtime call.
    Skipped { reason: SkipReason },
    /// The image has no registry digest to compare against, so no check was
    /// possible and no pull was attempted.
    CheckSkipped,
    /// The digest check found nothing newer.
    UpToDate,
    /// A newer digest was found, but the update mode forbids recreation.
    NewerAvailable,
    /// The container was recreated on the newer image.
    Updated,
    /// The named stage failed; `cause` carries the runtime's error text, or
    /// nothing when the library itself rejected the stage's input.
    Failed { stage: RefreshStage, cause: Option<String> },
}

/// A runtime call the session asks its caller to perform next.
#[derive(Debug)]
pub enum RuntimeAction {
    /// Inspect the image under the given reference.
    InspectImage { reference: String },
    /// Pull the image under the given reference.
    PullImage { reference: String },
    /// Inspect the container, to capture its configuration snapshot.
    InspectContainer { id: String },
    /// Stop the container, with the bounded grace period.
    StopContainer { id: String, grace_seconds: u32 },
    /// Remove the stopped container.
    RemoveContainer { id: String },
    /// Create the replacement container from the captured snapshot, under
    /// the snapshot's name and platform.
    CreateContainer { snapshot: ContainerConfigSnapshot },
    /// Start the newly created container.
    StartContainer { id: String },
}

/// The result of a runtime call, handed back to the session.
#[derive(Debug)]
pub enum RuntimeEvent {
    ImageInspected { result: Result<ImageDigestInfo, RuntimeError> },
    ImagePulled { result: Result<(), RuntimeError> },
    ContainerInspected { result: Result<InspectData, RuntimeError> },
    ContainerStopped { result: Result<(), RuntimeError> },
    ContainerRemoved { result: Result<(), RuntimeError> },
    ContainerCreated { result: Result<String, RuntimeError> },
    ContainerStarted { result: Result<(), RuntimeError> },
}

/// The facts about one container that stay fixed for the whole session.
#[derive(Debug)]
pub struct SessionHeader {
    /// The container's identifier.
    pub container_id: String,
    /// The container's display name: its reported names joined.
    pub display_name: String,
    /// The normalized image reference, with an explicit tag.
    pub image_reference: String,
    /// The content identifier of the image the container used when the
    /// inventory was listed, captured before any pull.
    pub current_content_id: String,
    /// The lifecycle state captured before any mutation.
    pub prior_state: LifecycleState,
    /// The update mode of this round.
    pub mode: ContainersUpdateMode,
    /// The digest comparison policy of this round.
    pub compare: DigestComparePolicy,
}

/// Where the session stands, and what it is waiting for.
#[derive(Debug)]
pub enum Phase {
    /// Waiting for the inspect of the currently resolved local image.
    InspectingImage,
    /// Waiting for the pull to complete.
    Pulling,
    /// Waiting for the re-inspect of the image after the pull.
    Reinspecting,
    /// Waiting for the container inspect that captures the snapshot.
    Inspecting,
    /// Waiting for the stop call; the snapshot is already captured.
    Stopping { snapshot: ContainerConfigSnapshot },
    /// Waiting for the remove call; the snapshot is carried unchanged.
    Removing { snapshot: ContainerConfigSnapshot },
    /// Waiting for the create call.
    Creating,
    /// Waiting for the start call.
    Starting,
    /// The session is finished; nothing further is emitted.
    Done { outcome: RefreshOutcome },
}

/// One container's refresh session.
#[derive(Debug)]
pub struct RefreshSession {
    pub header: SessionHeader,
    pub phase: Phase,
}

/// Whether the content identifier reported after the pull matches the one
/// the container currently uses.  A missing identifier counts as the empty
/// text, as the runtime's own default does.
pub open spec fn same_content(h: SessionHeader, info: ImageDigestInfo) -> bool {
    match info.content_id {
        Some(s) => s@ == h.current_content_id@,
        None => h.current_content_id@.len() == 0,
    }
}

/// Whether the check treats the pulled image as newer than the one the
/// container uses, under the session's comparison policy.
pub open spec fn newer_digest(h: SessionHeader, info: ImageDigestInfo) -> bool {
    h.compare == DigestComparePolicy::TrustPull || !same_content(h, info)
}

/// A session that ended with the given failure.
pub open spec fn failed_session(
    h: SessionHeader,
    stage: RefreshStage,
    cause: Option<String>,
) -> RefreshSession {
    RefreshSession {
        header: h,
        phase: Phase::Done { outcome: RefreshOutcome::Failed { stage, cause } },
    }
}

/// An action is mutating when it stops, removes, creates or starts a
/// container.  Inspects and pulls touch only the local image store.
pub open spec fn is_mutating(a: RuntimeAction) -> bool {
    ||| a is StopContainer
    ||| a is RemoveContainer
    ||| a is CreateContainer
    ||| a is StartContainer
}

impl RefreshSession {
    /// The phases of the recreation state machine proper, entered only when
    /// the update mode drives recreation.
    pub open spec fn in_recreation(self) -> bool {
        match self.phase {
            Phase::Inspecting => true,
            Phase::Stopping { .. } => true,
            Phase::Removing { .. } => true,
            Phase::Creating => true,
            Phase::Starting => true,
            _ => false,
        }
    }

    /// A well-formed session is in a recreation phase only when its round's
    /// update mode is `Update`.
    pub open spec fn wf(self) -> bool {
        self.in_recreation() ==> self.header.mode == ContainersUpdateMode::Update
    }

    /// The full transition relation of the session: from the current phase
    /// and one runtime event to the next session and the next action, if
    /// any.  An event that does not answer what the phase is waiting for
    /// changes nothing, and a `Done` session absorbs every event.
    pub open spec fn spec_step(self, event: RuntimeEvent) -> (RefreshSession, Option<
        RuntimeAction,
    >) {
        let h = self.header;
        match (self.phase, event) {
            (Phase::InspectingImage, RuntimeEvent::ImageInspected { result }) => match result {
                Ok(info) => if info.repo_digests.len() == 0 {
                    (
                        RefreshSession {
                            header: h,
                            phase: Phase::Done { outcome: RefreshOutcome::CheckSkipped },
                        },
                        None,
                    )
                } else {
                    (
                        RefreshSession { header: h, phase: Phase::Pulling },
                        Some(RuntimeAction::PullImage { reference: h.image_reference }),
                    )
                },
                Err(e) => (
                    failed_session(h, RefreshStage::ImageInspect, Some(e.message)),
                    None,
                ),
            },
            (Phase::Pulling, RuntimeEvent::ImagePulled { result }) => match result {
                Ok(_) => (
                    RefreshSession { header: h, phase: Phase::Reinspecting },
                    Some(RuntimeAction::InspectImage { reference: h.image_reference }),
                ),
                Err(e) => (failed_session(h, RefreshStage::ImagePull, Some(e.message)), None),
            },
            (Phase::Reinspecting, RuntimeEvent::ImageInspected { result }) => match result {
                Ok(info) => if !newer_digest(h, info) {
                    (
                        RefreshSession {
                            header: h,
                            phase: Phase::Done { outcome: RefreshOutcome::UpToDate },
                        },
                        None,
                    )
                } else if h.mode == ContainersUpdateMode::Update {
                    (
                        RefreshSession { header: h, phase: Phase::Inspecting },
                        Some(RuntimeAction::InspectContainer { id: h.container_id }),
                    )
                } else {
                    (
                        RefreshSession {
                            header: h,
                            phase: Phase::Done { outcome: RefreshOutcome::NewerAvailable },
                        },
                        None,
                    )
                },
                Err(e) => (
                    failed_session(h, RefreshStage::ImageInspect, Some(e.message)),
                    None,
                ),
            },
            (Phase::Inspecting, RuntimeEvent::ContainerInspected { result }) => match result {
                Ok(d) => match (d.process, d.host, d.networks) {
                    (Some(process), Some(host), Some(endpoints)) => {
                        let snapshot = ContainerConfigSnapshot {
                            payload: CreatePayload { process, host, endpoints },
                            name: d.name,
                            platform: d.platform,
                        };
                        (
                            RefreshSession { header: h, phase: Phase::Stopping { snapshot } },
                            Some(
                                (RuntimeAction::StopContainer {
                                    id: h.container_id,
                                    grace_seconds: STOP_GRACE_SECONDS,
                                }),
                            ),
                        )
                    },
                    _ => (failed_session(h, RefreshStage::ContainerInspect, None), None),
                },
                Err(e) => (
                    failed_session(h, RefreshStage::ContainerInspect, Some(e.message)),
                    None,
                ),
            },
            (Phase::Stopping { snapshot }, RuntimeEvent::ContainerStopped { result }) => match result {
                Ok(_) => (
                    RefreshSession { header: h, phase: Phase::Removing { snapshot } },
                    Some(RuntimeAction::RemoveContainer { id: h.container_id }),
                ),
                Err(e) => (failed_session(h, RefreshStage::Stop, Some(e.message)), None),
            },
            (Phase::Removing { snapshot }, RuntimeEvent::ContainerRemoved { result }) => match result {
                Ok(_) => (
                    RefreshSession { header: h, phase: Phase::Creating },
                    Some(RuntimeAction::CreateContainer { snapshot }),
                ),
                Err(e) => (failed_session(h, RefreshStage::Remove, Some(e.message)), None),
            },
            (Phase::Creating, RuntimeEvent::ContainerCreated { result }) => match result {
                Ok(new_id) => if h.prior_state == LifecycleState::Running {
                    (
                        RefreshSession { header: h, phase: Phase::Starting },
                        Some(RuntimeAction::StartContainer { id: new_id }),
                    )
                } else {
                    (
                        RefreshSession {
                            header: h,
                            phase: Phase::Done { outcome: RefreshOutcome::Updated },
                        },
                        None,
                    )
                },
                Err(e) => (failed_session(h, RefreshStage::Create, Some(e.message)), None),
            },
            (Phase::Starting, RuntimeEvent::ContainerStarted { result }) => match result {
                Ok(_) => (
                    RefreshSession {
                        header: h,
                        phase: Phase::Done { outcome: RefreshOutcome::Updated },
                    },
                    None,
                ),
                Err(e) => (failed_session(h, RefreshStage::Start, Some(e.message)), None),
            },
            (phase, _) => (RefreshSession { header: h, phase }, None),
        }
    }

    /// Open a session for one inventory record.  A record a skip rule
    /// rejects gets no session at all; an eligible one starts by inspecting
    /// the currently resolved local image.
    pub fn begin(record: ContainerRecord, settings: &RoundSettings) -> (r: Result<
        (RefreshSession, RuntimeAction),
        SkipReason,
    >)
        ensures
            (match spec_classify(record, settings_identity(*settings)) {
                Some(reason) => r == Err::<(RefreshSession, RuntimeAction), SkipReason>(reason),
                None => r matches Ok(pair) && pair.0.wf() && begin_header_ok(
                    record,
                    *settings,
                    pair.0,
                ) && pair.0.phase is InspectingImage && (pair.1
                    matches RuntimeAction::InspectImage { reference } && reference
                    == pair.0.header.image_reference),
            }),
    {
        let verdict = classify(&record, settings.self_identity.as_ref());
        if let Some(reason) = verdict {
            return Err(reason);
        }
        let ContainerRecord { id, names, state, image, image_id } = record;
        let container_id = id.unwrap();
        let names = names.unwrap();
        let prior_state = state.unwrap();
        let image = image.unwrap();
        let current_content_id = image_id.unwrap();
        let display_name = join_names(&names);
        let reference = normalize_reference(image.as_str());
        let header = SessionHeader {
            container_id,
            display_name,
            image_reference: reference.clone(),
            current_content_id,
            prior_state,
            mode: settings.update_mode,
            compare: settings.compare,
        };
        let action = RuntimeAction::InspectImage { reference };
        Ok((RefreshSession { header, phase: Phase::InspectingImage }, action))
    }

    /// Consume one runtime event and move the session forward, handing back
    /// the next runtime call to perform, if any.
    pub fn step(self, event: RuntimeEvent) -> (r: (RefreshSession, Option<RuntimeAction>))
        ensures
            r == self.spec_step(event),
    {
        let RefreshSession { header, phase } = self;
        match (phase, event) {
            (Phase::InspectingImage, RuntimeEvent::ImageInspected { result }) => match result {
                Ok(info) => {
                    if info.repo_digests.len() == 0 {
                        (
                            RefreshSession {
                                header,
                                phase: Phase::Done { outcome: RefreshOutcome::CheckSkipped },
                            },
                            None,
                        )
                    } else {
                        let reference = header.image_reference.clone();
                        (
                            RefreshSession { header, phase: Phase::Pulling },
                            Some(RuntimeAction::PullImage { reference }),
                        )
                    }
                },
                Err(e) => (
                    RefreshSession {
                        header,
                        phase: Phase::Done {
                            outcome: RefreshOutcome::Failed {
                                stage: RefreshStage::ImageInspect,
                                cause: Some(e.message),
                            },
                        },
                    },
                    None,
                ),
            },
            (Phase::Pulling, RuntimeEvent::ImagePulled { result }) => match result {
                Ok(_) => {
                    let reference = header.image_reference.clone();
                    (
                        RefreshSession { header, phase: Phase::Reinspecting },
                        Some(RuntimeAction::InspectImage { reference }),
                    )
                },
                Err(e) => (
                    RefreshSession {
                        header,
                        phase: Phase::Done {
                            outcome: RefreshOutcome::Failed {
                                stage: RefreshStage::ImagePull,
                                cause: Some(e.message),
                            },
                        },
                    },
                    None,
                ),
            },
            (Phase::Reinspecting, RuntimeEvent::ImageInspected { result }) => match result {
                Ok(info) => {
                    let same = match &info.content_id {
                        Some(s) => *s == header.current_content_id,
                        None => header.current_content_id.as_str().is_empty(),
                    };
                    let newer = match header.compare {
                        DigestComparePolicy::TrustPull => true,
                        DigestComparePolicy::CompareContentIds => !same,
                    };
                    if !newer {
                        (
                            RefreshSession {
                                header,
                                phase: Phase::Done { outcome: RefreshOutcome::UpToDate },
                            },
                            None,
                        )
                    } else if header.mode == ContainersUpdateMode::Update {
                        let id = header.container_id.clone();
                        (
                            RefreshSession { header, phase: Phase::Inspecting },
                            Some(RuntimeAction::InspectContainer { id }),
                        )
                    } else {
                        (
                            RefreshSession {
                                header,
                                phase: Phase::Done { outcome: RefreshOutcome::NewerAvailable },
                            },
                            None,
                        )
                    }
                },
                Err(e) => (
                    RefreshSession {
                        header,
                        phase: Phase::Done {
                            outcome: RefreshOutcome::Failed {
                                stage: RefreshStage::ImageInspect,
                                cause: Some(e.message),
                            },
                        },
                    },
                    None,
                ),
            },
            (Phase::Inspecting, RuntimeEvent::ContainerInspected { result }) => match result {
                Ok(d) => match (d.process, d.host, d.networks) {
                    (Some(process), Some(host), Some(endpoints)) => {
                        let snapshot = ContainerConfigSnapshot {
                            payload: CreatePayload { process, host, endpoints },
                            name: d.name,
                            platform: d.platform,
                        };
                        let id = header.container_id.clone();
                        (
                            RefreshSession { header, phase: Phase::Stopping { snapshot } },
                            Some(
                                (RuntimeAction::StopContainer {
                                    id,
                                    grace_seconds: STOP_GRACE_SECONDS,
                                }),
                            ),
                        )
                    },
                    _ => (
                        RefreshSession {
                            header,
                            phase: Phase::Done {
                                outcome: RefreshOutcome::Failed {
                                    stage: RefreshStage::ContainerInspect,
                                    cause: None,
                                },
                            },
                        },
                        None,
                    ),
                },
                Err(e) => (
                    RefreshSession {
                        header,
                        phase: Phase::Done {
                            outcome: RefreshOutcome::Failed {
                                stage: RefreshStage::ContainerInspect,
                                cause: Some(e.message),
                            },
                        },
                    },
                    None,
                ),
            },
            (Phase::Stopping { snapshot }, RuntimeEvent::ContainerStopped { result }) => match result {
                Ok(_) => {
                    let id = header.container_id.clone();
                    (
                        RefreshSession { header, phase: Phase::Removing { snapshot } },
                        Some(RuntimeAction::RemoveContainer { id }),
                    )
                },
                Err(e) => (
                    RefreshSession {
                        header,
                        phase: Phase::Done {
                            outcome: RefreshOutcome::Failed {
                                stage: RefreshStage::Stop,
                                cause: Some(e.message),
                            },
                        },
                    },
                    None,
                ),
            },
            (Phase::Removing { snapshot }, RuntimeEvent::ContainerRemoved { result }) => match result {
                Ok(_) => (
                    RefreshSession { header, phase: Phase::Creating },
                    Some(RuntimeAction::CreateContainer { snapshot }),
                ),
                Err(e) => (
                    RefreshSession {
                        header,
                        phase: Phase::Done {
                            outcome: RefreshOutcome::Failed {
                                stage: RefreshStage::Remove,
                                cause: Some(e.message),
                            },
                        },
                    },
                    None,
                ),
            },
            (Phase::Creating, RuntimeEvent::ContainerCreated { result }) => match result {
                Ok(new_id) => {
                    if header.prior_state == LifecycleState::Running {
                        (
                            RefreshSession { header, phase: Phase::Starting },
                            Some(RuntimeAction::StartContainer { id: new_id }),
                        )
                    } else {
                        (
                            RefreshSession {
                                header,
                                phase: Phase::Done { outcome: RefreshOutcome::Updated },
                            },
                            None,
                        )
                    }
                },
                Err(e) => (
                    RefreshSession {
                        header,
                        phase: Phase::Done {
                            outcome: RefreshOutcome::Failed {
                                stage: RefreshStage::Create,
                                cause: Some(e.message),
                            },
                        },
                    },
                    None,
                ),
            },
            (Phase::Starting, RuntimeEvent::ContainerStarted { result }) => match result {
                Ok(_) => (
                    RefreshSession {
                        header,
                        phase: Phase::Done { outcome: RefreshOutcome::Updated },
                    },
                    None,
                ),
                Err(e) => (
                    RefreshSession {
                        header,
                        phase: Phase::Done {
                            outcome: RefreshOutcome::Failed {
                                stage: RefreshStage::Start,
                                cause: Some(e.message),
                            },
                        },
                    },
                    None,
                ),
            },
            (phase, _) => (RefreshSession { header, phase }, None),
        }
    }
}

impl RefreshSession {
    /// A step never touches the session's captured facts, and keeps the
    /// session well-formed: recreation phases are entered only under the
    /// `Update` mode.
    pub proof fn lemma_step_preserves_wf(self, event: RuntimeEvent)
        requires
            self.wf(),
        ensures
            self.spec_step(event).0.wf(),
            self.spec_step(event).0.header == self.header,
    {
    }

    /// Recreation is gated by the update mode: a well-formed session of a
    /// round whose mode is not `Update` never asks for a stop, remove,
    /// create or start call, whatever event arrives.
    pub proof fn lemma_no_mutation_unless_update(self, event: RuntimeEvent)
        requires
            self.wf(),
            self.header.mode != ContainersUpdateMode::Update,
        ensures
            (match self.spec_step(event).1 {
                Some(a) => !is_mutating(a),
                None => true,
            }),
    {
    }

    /// A create call is asked for only from the `Removing` phase, on the
    /// event that reports a successful remove: create is reachable only via
    /// a successful stop and a successful remove.
    pub proof fn lemma_create_only_after_successful_remove(self, event: RuntimeEvent)
        ensures
            (self.spec_step(event).1 matches Some(RuntimeAction::CreateContainer { .. })) ==> {
                &&& self.phase is Removing
                &&& event matches RuntimeEvent::ContainerRemoved { result } && result is Ok
            },
    {
    }

    /// A failed stop or remove ends the session: it moves to the terminal
    /// `Failed` outcome of that stage with no further action, and a finished
    /// session absorbs every later event without emitting anything.
    pub proof fn lemma_failure_is_terminal(self, event: RuntimeEvent)
        ensures
            (self.phase matches Phase::Stopping { .. } && (event
                matches RuntimeEvent::ContainerStopped { result } && result is Err)) ==> {
                &&& self.spec_step(event).1 is None
                &&& self.spec_step(event).0.phase matches Phase::Done {
                    outcome: RefreshOutcome::Failed { stage: RefreshStage::Stop, .. },
                }
            },
            (self.phase matches Phase::Removing { .. } && (event
                matches RuntimeEvent::ContainerRemoved { result } && result is Err)) ==> {
                &&& self.spec_step(event).1 is None
                &&& self.spec_step(event).0.phase matches Phase::Done {
                    outcome: RefreshOutcome::Failed { stage: RefreshStage::Remove, .. },
                }
            },
            self.phase is Done ==> self.spec_step(event) == (self, None::<RuntimeAction>),
    {
    }

    /// A start call is asked for only when the lifecycle state captured
    /// before any mutation was `Running`, and only right after a successful
    /// create.  A container that was not running is never started.
    pub proof fn lemma_start_only_when_previously_running(self, event: RuntimeEvent)
        ensures
            (self.spec_step(event).1 matches Some(RuntimeAction::StartContainer { .. })) ==> {
                &&& self.header.prior_state == LifecycleState::Running
                &&& self.phase is Creating
                &&& event matches RuntimeEvent::ContainerCreated { result } && result is Ok
            },
    {
    }

    /// The snapshot captured from a complete inspect result keeps every
    /// part of the original configuration: the process configuration, the
    /// host configuration with all its mounts, every network endpoint, and
    /// the original name and platform.  Nothing is filtered or rewritten.
    pub proof fn lemma_snapshot_keeps_configuration(self, event: RuntimeEvent)
        ensures
            self.phase is Inspecting ==> (event matches RuntimeEvent::ContainerInspected {
                result: Ok(d),
            } ==> ((d.process is Some && d.host is Some && d.networks is Some) ==> {
                let next = self.spec_step(event).0;
                next.phase matches Phase::Stopping { snapshot } && {
                    &&& snapshot.payload.process == d.process->0
                    &&& snapshot.payload.host == d.host->0
                    &&& snapshot.payload.host.mounts@ == d.host->0.mounts@
                    &&& snapshot.payload.endpoints == d.networks->0
                    &&& snapshot.payload.endpoints@.len() == d.networks->0@.len()
                    &&& snapshot.name == d.name
                    &&& snapshot.platform == d.platform
                }
            })),
    {
    }

    /// The snapshot travels unchanged from its capture to the create call:
    /// a successful stop carries it into `Removing`, and a successful
    /// remove hands exactly the carried snapshot to create.
    pub proof fn lemma_create_uses_captured_snapshot(self, event: RuntimeEvent)
        ensures
            self.phase matches Phase::Stopping { snapshot } ==> ((event
                matches RuntimeEvent::ContainerStopped { result } && result is Ok)
                ==> self.spec_step(event).0.phase == (Phase::Removing { snapshot })),
            self.phase matches Phase::Removing { snapshot } ==> ((event
                matches RuntimeEvent::ContainerRemoved { result } && result is Ok)
                ==> self.spec_step(event).1 == Some(RuntimeAction::CreateContainer { snapshot })),
    {
    }
}

/// The view of the optional configured self-identity in the round settings.
pub open spec fn settings_identity(s: RoundSettings) -> Option<Seq<char>> {
    match s.self_identity {
        Some(p) => Some(p@),
        None => None,
    }
}

/// The header a session opened for `record` under `settings` carries: every
/// field captured from the record before any mutation, the image reference
/// normalized to carry an explicit tag.
pub open spec fn begin_header_ok(
    record: ContainerRecord,
    settings: RoundSettings,
    s: RefreshSession,
) -> bool {
    &&& s.header.container_id == record.id->0
    &&& s.header.display_name@ == record.names->0.deep_view().flatten()
    &&& s.header.image_reference@ == spec_normalize_reference(record.image->0@)
    &&& s.header.current_content_id == record.image_id->0
    &&& s.header.prior_state == record.state->0
    &&& s.header.mode == settings.update_mode
    &&& s.header.compare == settings.compare
}

} // verus!
