use docker_maid::modes::ContainersUpdateMode;
use docker_maid::record::ContainerRecord;
use docker_maid::record::LifecycleState;
use docker_maid::record::SkipReason;
use docker_maid::session::DigestComparePolicy;
use docker_maid::session::Phase;
use docker_maid::session::RefreshOutcome;
use docker_maid::session::RefreshSession;
use docker_maid::session::RefreshStage;
use docker_maid::session::RoundSettings;
use docker_maid::session::RuntimeAction;
use docker_maid::session::RuntimeError;
use docker_maid::session::RuntimeEvent;
use docker_maid::snapshot::merge_create_payload;
use docker_maid::snapshot::ContainerConfigSnapshot;
use docker_maid::snapshot::EndpointConfig;
use docker_maid::snapshot::HostConfig;
use docker_maid::snapshot::ImageDigestInfo;
use docker_maid::snapshot::InspectData;
use docker_maid::snapshot::MountSpec;
use docker_maid::snapshot::ProcessConfig;
use docker_maid::summary::summarize;
use docker_maid::summary::RoundSummary;

fn web_record() -> ContainerRecord {
    ContainerRecord {
        id: Some("c0ffee".to_string()),
        names: Some(vec!["/web-1".to_string()]),
        state: Some(LifecycleState::Running),
        image: Some("app:latest".to_string()),
        image_id: Some("sha256:old".to_string()),
    }
}

fn settings(mode: ContainersUpdateMode) -> RoundSettings {
    RoundSettings {
        update_mode: mode,
        compare: DigestComparePolicy::TrustPull,
        self_identity: None,
    }
}

fn digest_info(content_id: &str, digests: usize) -> ImageDigestInfo {
    ImageDigestInfo {
        content_id: Some(content_id.to_string()),
        repo_digests: (0..digests).map(|i| format!("app@sha256:{i}")).collect(),
    }
}

fn process_config() -> ProcessConfig {
    ProcessConfig {
        image: Some("app:latest".to_string()),
        entrypoint: None,
        cmd: Some(vec!["serve".to_string()]),
        env: Some(vec!["MODE=prod".to_string()]),
        labels: vec![],
        exposed_ports: vec!["80/tcp".to_string()],
        user: None,
        working_dir: None,
    }
}

fn host_config(mounts: usize) -> HostConfig {
    HostConfig {
        binds: vec![],
        mounts: (0..mounts)
            .map(|i| MountSpec {
                kind: "volume".to_string(),
                source: format!("data-{i}"),
                target: format!("/data/{i}"),
                read_only: false,
            })
            .collect(),
        restart_policy: Some("unless-stopped".to_string()),
        memory_limit: Some(512 * 1024 * 1024),
        cpu_shares: None,
        privileged: false,
        network_mode: None,
    }
}

fn endpoints(networks: usize) -> Vec<EndpointConfig> {
    (0..networks)
        .map(|i| EndpointConfig {
            network_name: format!("net-{i}"),
            aliases: vec![format!("alias-{i}")],
            ipv4_address: None,
        })
        .collect()
}

fn inspect_data(networks: usize, mounts: usize) -> InspectData {
    InspectData {
        process: Some(process_config()),
        host: Some(host_config(mounts)),
        networks: Some(endpoints(networks)),
        name: Some("/web-1".to_string()),
        platform: Some("linux/amd64".to_string()),
    }
}

fn ok<T>(value: T) -> Result<T, RuntimeError> {
    Ok(value)
}

fn err<T>(message: &str) -> Result<T, RuntimeError> {
    Err(RuntimeError {
        message: message.to_string(),
    })
}

#[test]
fn update_round_recreates_and_restarts_a_running_container() {
    let (s, a) = RefreshSession::begin(web_record(), &settings(ContainersUpdateMode::Update))
        .expect("eligible record");
    assert!(matches!(a, RuntimeAction::InspectImage { reference } if reference == "app:latest"));

    let (s, a) = s.step(RuntimeEvent::ImageInspected {
        result: ok(digest_info("sha256:old", 1)),
    });
    assert!(matches!(a, Some(RuntimeAction::PullImage { reference }) if reference == "app:latest"));

    let (s, a) = s.step(RuntimeEvent::ImagePulled { result: ok(()) });
    assert!(
        matches!(a, Some(RuntimeAction::InspectImage { reference }) if reference == "app:latest")
    );

    let (s, a) = s.step(RuntimeEvent::ImageInspected {
        result: ok(digest_info("sha256:new", 1)),
    });
    assert!(matches!(a, Some(RuntimeAction::InspectContainer { id }) if id == "c0ffee"));

    let (s, a) = s.step(RuntimeEvent::ContainerInspected {
        result: ok(inspect_data(2, 1)),
    });
    match a {
        Some(RuntimeAction::StopContainer { id, grace_seconds }) => {
            assert_eq!(id, "c0ffee");
            assert_eq!(grace_seconds, 10);
        }
        other => panic!("expected a stop call, got {other:?}"),
    }

    let (s, a) = s.step(RuntimeEvent::ContainerStopped { result: ok(()) });
    assert!(matches!(a, Some(RuntimeAction::RemoveContainer { id }) if id == "c0ffee"));

    let (s, a) = s.step(RuntimeEvent::ContainerRemoved { result: ok(()) });
    let snapshot = match a {
        Some(RuntimeAction::CreateContainer { snapshot }) => snapshot,
        other => panic!("expected a create call, got {other:?}"),
    };
    assert_eq!(snapshot.name, Some("/web-1".to_string()));
    assert_eq!(snapshot.platform, Some("linux/amd64".to_string()));

    let (s, a) = s.step(RuntimeEvent::ContainerCreated {
        result: ok("beef42".to_string()),
    });
    assert!(matches!(a, Some(RuntimeAction::StartContainer { id }) if id == "beef42"));

    let (s, a) = s.step(RuntimeEvent::ContainerStarted { result: ok(()) });
    assert!(a.is_none());
    assert!(matches!(
        s.phase,
        Phase::Done {
            outcome: RefreshOutcome::Updated
        }
    ));
}

#[test]
fn notify_round_reports_without_recreating() {
    let (s, _) = RefreshSession::begin(web_record(), &settings(ContainersUpdateMode::Notify))
        .expect("eligible record");
    let (s, a) = s.step(RuntimeEvent::ImageInspected {
        result: ok(digest_info("sha256:old", 1)),
    });
    assert!(matches!(a, Some(RuntimeAction::PullImage { .. })));
    let (s, a) = s.step(RuntimeEvent::ImagePulled { result: ok(()) });
    assert!(matches!(a, Some(RuntimeAction::InspectImage { .. })));
    let (s, a) = s.step(RuntimeEvent::ImageInspected {
        result: ok(digest_info("sha256:new", 1)),
    });
    assert!(a.is_none());
    assert!(matches!(
        s.phase,
        Phase::Done {
            outcome: RefreshOutcome::NewerAvailable
        }
    ));
}

#[test]
fn zero_repo_digests_skips_the_check_without_a_pull() {
    let (s, _) = RefreshSession::begin(web_record(), &settings(ContainersUpdateMode::Update))
        .expect("eligible record");
    let (s, a) = s.step(RuntimeEvent::ImageInspected {
        result: ok(ImageDigestInfo {
            content_id: Some("sha256:old".to_string()),
            repo_digests: vec![],
        }),
    });
    assert!(a.is_none());
    assert!(matches!(
        s.phase,
        Phase::Done {
            outcome: RefreshOutcome::CheckSkipped
        }
    ));
}

#[test]
fn failed_remove_halts_before_create() {
    let (s, _) = RefreshSession::begin(web_record(), &settings(ContainersUpdateMode::Update))
        .expect("eligible record");
    let (s, _) = s.step(RuntimeEvent::ImageInspected {
        result: ok(digest_info("sha256:old", 1)),
    });
    let (s, _) = s.step(RuntimeEvent::ImagePulled { result: ok(()) });
    let (s, _) = s.step(RuntimeEvent::ImageInspected {
        result: ok(digest_info("sha256:new", 1)),
    });
    let (s, _) = s.step(RuntimeEvent::ContainerInspected {
        result: ok(inspect_data(1, 1)),
    });
    let (s, a) = s.step(RuntimeEvent::ContainerStopped { result: ok(()) });
    assert!(matches!(a, Some(RuntimeAction::RemoveContainer { .. })));

    let (s, a) = s.step(RuntimeEvent::ContainerRemoved {
        result: err("device busy"),
    });
    assert!(a.is_none());
    match &s.phase {
        Phase::Done {
            outcome: RefreshOutcome::Failed { stage, cause },
        } => {
            assert_eq!(*stage, RefreshStage::Remove);
            assert_eq!(cause.as_deref(), Some("device busy"));
        }
        other => panic!("expected a remove failure, got {other:?}"),
    }

    // The finished session absorbs anything further without emitting a call.
    let (s, a) = s.step(RuntimeEvent::ContainerRemoved { result: ok(()) });
    assert!(a.is_none());
    assert!(matches!(s.phase, Phase::Done { .. }));
}

#[test]
fn failed_stop_halts_before_remove() {
    let (s, _) = RefreshSession::begin(web_record(), &settings(ContainersUpdateMode::Update))
        .expect("eligible record");
    let (s, _) = s.step(RuntimeEvent::ImageInspected {
        result: ok(digest_info("sha256:old", 1)),
    });
    let (s, _) = s.step(RuntimeEvent::ImagePulled { result: ok(()) });
    let (s, _) = s.step(RuntimeEvent::ImageInspected {
        result: ok(digest_info("sha256:new", 1)),
    });
    let (s, _) = s.step(RuntimeEvent::ContainerInspected {
        result: ok(inspect_data(1, 1)),
    });
    let (s, a) = s.step(RuntimeEvent::ContainerStopped {
        result: err("timeout"),
    });
    assert!(a.is_none());
    assert!(matches!(
        s.phase,
        Phase::Done {
            outcome: RefreshOutcome::Failed {
                stage: RefreshStage::Stop,
                ..
            }
        }
    ));
}

#[test]
fn container_not_running_is_not_restarted() {
    let mut record = web_record();
    record.state = Some(LifecycleState::Exited);
    let (s, _) = RefreshSession::begin(record, &settings(ContainersUpdateMode::Update))
        .expect("eligible record");
    let (s, _) = s.step(RuntimeEvent::ImageInspected {
        result: ok(digest_info("sha256:old", 1)),
    });
    let (s, _) = s.step(RuntimeEvent::ImagePulled { result: ok(()) });
    let (s, _) = s.step(RuntimeEvent::ImageInspected {
        result: ok(digest_info("sha256:new", 1)),
    });
    let (s, _) = s.step(RuntimeEvent::ContainerInspected {
        result: ok(inspect_data(1, 0)),
    });
    let (s, _) = s.step(RuntimeEvent::ContainerStopped { result: ok(()) });
    let (s, _) = s.step(RuntimeEvent::ContainerRemoved { result: ok(()) });
    let (s, a) = s.step(RuntimeEvent::ContainerCreated {
        result: ok("beef42".to_string()),
    });
    assert!(a.is_none());
    assert!(matches!(
        s.phase,
        Phase::Done {
            outcome: RefreshOutcome::Updated
        }
    ));
}

#[test]
fn compare_policy_detects_an_unchanged_digest() {
    let mut config = settings(ContainersUpdateMode::Update);
    config.compare = DigestComparePolicy::CompareContentIds;
    let (s, _) = RefreshSession::begin(web_record(), &config).expect("eligible record");
    let (s, _) = s.step(RuntimeEvent::ImageInspected {
        result: ok(digest_info("sha256:old", 1)),
    });
    let (s, _) = s.step(RuntimeEvent::ImagePulled { result: ok(()) });
    let (s, a) = s.step(RuntimeEvent::ImageInspected {
        result: ok(digest_info("sha256:old", 1)),
    });
    assert!(a.is_none());
    assert!(matches!(
        s.phase,
        Phase::Done {
            outcome: RefreshOutcome::UpToDate
        }
    ));
}

#[test]
fn checker_failures_skip_the_container() {
    let (s, _) = RefreshSession::begin(web_record(), &settings(ContainersUpdateMode::Update))
        .expect("eligible record");
    let (s, a) = s.step(RuntimeEvent::ImageInspected {
        result: err("no such image"),
    });
    assert!(a.is_none());
    assert!(matches!(
        s.phase,
        Phase::Done {
            outcome: RefreshOutcome::Failed {
                stage: RefreshStage::ImageInspect,
                ..
            }
        }
    ));

    let (s, _) = RefreshSession::begin(web_record(), &settings(ContainersUpdateMode::Update))
        .expect("eligible record");
    let (s, _) = s.step(RuntimeEvent::ImageInspected {
        result: ok(digest_info("sha256:old", 1)),
    });
    let (s, a) = s.step(RuntimeEvent::ImagePulled {
        result: err("registry unreachable"),
    });
    assert!(a.is_none());
    assert!(matches!(
        s.phase,
        Phase::Done {
            outcome: RefreshOutcome::Failed {
                stage: RefreshStage::ImagePull,
                ..
            }
        }
    ));
}

#[test]
fn incomplete_inspect_result_fails_before_any_mutation() {
    let (s, _) = RefreshSession::begin(web_record(), &settings(ContainersUpdateMode::Update))
        .expect("eligible record");
    let (s, _) = s.step(RuntimeEvent::ImageInspected {
        result: ok(digest_info("sha256:old", 1)),
    });
    let (s, _) = s.step(RuntimeEvent::ImagePulled { result: ok(()) });
    let (s, _) = s.step(RuntimeEvent::ImageInspected {
        result: ok(digest_info("sha256:new", 1)),
    });
    let mut data = inspect_data(1, 1);
    data.host = None;
    let (s, a) = s.step(RuntimeEvent::ContainerInspected { result: ok(data) });
    assert!(a.is_none());
    match &s.phase {
        Phase::Done {
            outcome: RefreshOutcome::Failed { stage, cause },
        } => {
            assert_eq!(*stage, RefreshStage::ContainerInspect);
            assert!(cause.is_none());
        }
        other => panic!("expected an inspect failure, got {other:?}"),
    }
}

#[test]
fn skipped_records_get_no_session() {
    let mut record = web_record();
    record.image = None;
    let result = RefreshSession::begin(record, &settings(ContainersUpdateMode::Update));
    assert!(matches!(result, Err(SkipReason::MissingImage)));

    let mut config = settings(ContainersUpdateMode::Update);
    config.self_identity = Some("c0ff".to_string());
    let result = RefreshSession::begin(web_record(), &config);
    assert!(matches!(result, Err(SkipReason::SelfContainer)));
}

#[test]
fn an_unanswered_phase_ignores_foreign_events() {
    let (s, _) = RefreshSession::begin(web_record(), &settings(ContainersUpdateMode::Update))
        .expect("eligible record");
    // The session is waiting for an image inspect; a stop result is not an
    // answer to that and changes nothing.
    let (s, a) = s.step(RuntimeEvent::ContainerStopped { result: ok(()) });
    assert!(a.is_none());
    assert!(matches!(s.phase, Phase::InspectingImage));
}

#[test]
fn merged_payload_keeps_every_network_and_mount() {
    let payload = merge_create_payload(process_config(), host_config(3), endpoints(2));
    assert_eq!(payload.endpoints.len(), 2);
    assert_eq!(payload.host.mounts.len(), 3);
    for (i, endpoint) in payload.endpoints.iter().enumerate() {
        assert_eq!(endpoint.network_name, format!("net-{i}"));
        assert_eq!(endpoint.aliases, vec![format!("alias-{i}")]);
    }
    for (i, mount) in payload.host.mounts.iter().enumerate() {
        assert_eq!(mount.source, format!("data-{i}"));
        assert_eq!(mount.target, format!("/data/{i}"));
    }
    assert_eq!(payload.process.cmd, Some(vec!["serve".to_string()]));
    assert_eq!(payload.host.restart_policy, Some("unless-stopped".to_string()));
}

#[test]
fn snapshot_reaches_create_without_field_loss() {
    let (s, _) = RefreshSession::begin(web_record(), &settings(ContainersUpdateMode::Update))
        .expect("eligible record");
    let (s, _) = s.step(RuntimeEvent::ImageInspected {
        result: ok(digest_info("sha256:old", 1)),
    });
    let (s, _) = s.step(RuntimeEvent::ImagePulled { result: ok(()) });
    let (s, _) = s.step(RuntimeEvent::ImageInspected {
        result: ok(digest_info("sha256:new", 1)),
    });
    let (s, _) = s.step(RuntimeEvent::ContainerInspected {
        result: ok(inspect_data(4, 2)),
    });
    let (s, _) = s.step(RuntimeEvent::ContainerStopped { result: ok(()) });
    let (_, a) = s.step(RuntimeEvent::ContainerRemoved { result: ok(()) });
    let snapshot: ContainerConfigSnapshot = match a {
        Some(RuntimeAction::CreateContainer { snapshot }) => snapshot,
        other => panic!("expected a create call, got {other:?}"),
    };
    assert_eq!(snapshot.payload.endpoints.len(), 4);
    assert_eq!(snapshot.payload.host.mounts.len(), 2);
    assert_eq!(snapshot.payload.process.env, Some(vec!["MODE=prod".to_string()]));
    assert_eq!(snapshot.name, Some("/web-1".to_string()));
}

#[test]
fn summary_counts_each_outcome_once() {
    let outcomes = vec![
        RefreshOutcome::Updated,
        RefreshOutcome::Skipped {
            reason: SkipReason::MissingId,
        },
        RefreshOutcome::UpToDate,
        RefreshOutcome::Updated,
        RefreshOutcome::Failed {
            stage: RefreshStage::Create,
            cause: Some("boom".to_string()),
        },
        RefreshOutcome::CheckSkipped,
        RefreshOutcome::NewerAvailable,
    ];
    let summary: RoundSummary = summarize(&outcomes);
    assert_eq!(summary.found, 7);
    assert_eq!(summary.skipped, 1);
    assert_eq!(summary.check_skipped, 1);
    assert_eq!(summary.up_to_date, 1);
    assert_eq!(summary.newer_available, 1);
    assert_eq!(summary.updated, 2);
    assert_eq!(summary.failed, 1);
}
