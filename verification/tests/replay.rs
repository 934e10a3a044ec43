use lonis::replay::{
    verify_replay, HashMismatch, ObservedHashes, ReplayMetadata, ReplayProvenance, ReplayStatus,
};

fn observed() -> ObservedHashes {
    ObservedHashes {
        project_hash: None,
        input_hash: Some("aa".into()),
        plan_hash: Some("bb".into()),
        result_hash: None,
    }
}

#[test]
fn replayable_when_required_hashes_match() {
    let provenance = ReplayProvenance {
        input_hash: Some("aa".into()),
        replay: ReplayMetadata {
            replayable: true,
            required_hashes: vec!["input_hash".into()],
            reasons: Vec::new(),
        },
        ..ReplayProvenance::default()
    };
    assert_eq!(verify_replay(&provenance, &observed()), ReplayStatus::Replayable);
}

#[test]
fn replayable_with_no_required_hashes() {
    let provenance = ReplayProvenance {
        replay: ReplayMetadata {
            replayable: true,
            ..ReplayMetadata::default()
        },
        ..ReplayProvenance::default()
    };
    assert_eq!(verify_replay(&provenance, &observed()), ReplayStatus::Replayable);
}

#[test]
fn not_replayable_carries_reasons() {
    let provenance = ReplayProvenance {
        replay: ReplayMetadata {
            replayable: false,
            required_hashes: Vec::new(),
            reasons: vec!["runtime capabilities are environment-specific".into()],
        },
        ..ReplayProvenance::default()
    };
    assert_eq!(
        verify_replay(&provenance, &observed()),
        ReplayStatus::NotReplayable {
            reasons: vec!["runtime capabilities are environment-specific".into()]
        }
    );
}

#[test]
fn mismatched_reports_field_and_values() {
    let provenance = ReplayProvenance {
        input_hash: Some("aa".into()),
        replay: ReplayMetadata {
            replayable: true,
            required_hashes: vec!["input_hash".into()],
            reasons: Vec::new(),
        },
        ..ReplayProvenance::default()
    };
    let mut obs = observed();
    obs.input_hash = Some("DIFFERENT".into());
    assert_eq!(
        verify_replay(&provenance, &obs),
        ReplayStatus::Failed {
            missing: Vec::new(),
            mismatches: vec![HashMismatch {
                field: "input_hash".into(),
                expected: "aa".into(),
                observed: "DIFFERENT".into(),
            }],
        }
    );
}

#[test]
fn missing_when_block_lacks_the_required_hash() {
    let provenance = ReplayProvenance {
        replay: ReplayMetadata {
            replayable: true,
            required_hashes: vec!["plan_hash".into()],
            reasons: Vec::new(),
        },
        ..ReplayProvenance::default()
    };
    assert_eq!(
        verify_replay(&provenance, &observed()),
        ReplayStatus::Failed {
            missing: vec!["plan_hash".into()],
            mismatches: Vec::new(),
        }
    );
}

#[test]
fn missing_when_observation_lacks_the_hash() {
    let provenance = ReplayProvenance {
        result_hash: Some("cc".into()),
        replay: ReplayMetadata {
            replayable: true,
            required_hashes: vec!["result_hash".into()],
            reasons: Vec::new(),
        },
        ..ReplayProvenance::default()
    };
    assert_eq!(
        verify_replay(&provenance, &observed()),
        ReplayStatus::Failed {
            missing: vec!["result_hash".into()],
            mismatches: Vec::new(),
        }
    );
}

#[test]
fn unknown_required_field_is_missing() {
    let provenance = ReplayProvenance {
        replay: ReplayMetadata {
            replayable: true,
            required_hashes: vec!["catalog_hash".into()],
            reasons: Vec::new(),
        },
        ..ReplayProvenance::default()
    };
    assert_eq!(
        verify_replay(&provenance, &observed()),
        ReplayStatus::Failed {
            missing: vec!["catalog_hash".into()],
            mismatches: Vec::new(),
        }
    );
}

#[test]
fn multiple_mismatches_accumulate() {
    let provenance = ReplayProvenance {
        input_hash: Some("aa".into()),
        plan_hash: Some("bb".into()),
        replay: ReplayMetadata {
            replayable: true,
            required_hashes: vec!["input_hash".into(), "plan_hash".into()],
            reasons: Vec::new(),
        },
        ..ReplayProvenance::default()
    };
    let mut obs = observed();
    obs.input_hash = Some("x".into());
    obs.plan_hash = Some("y".into());
    let ReplayStatus::Failed { mismatches, .. } = verify_replay(&provenance, &obs) else {
        panic!("expected mismatches")
    };
    assert_eq!(mismatches.len(), 2);
}

#[test]
fn missing_and_mismatched_report_together() {
    let provenance = ReplayProvenance {
        input_hash: Some("aa".into()),
        replay: ReplayMetadata {
            replayable: true,
            required_hashes: vec!["input_hash".into(), "plan_hash".into()],
            reasons: Vec::new(),
        },
        ..ReplayProvenance::default()
    };
    let mut obs = observed();
    obs.input_hash = Some("x".into());
    // plan_hash absent on the block: missing; input_hash wrong: mismatch.
    let status = verify_replay(&provenance, &obs);
    let ReplayStatus::Failed {
        missing,
        mismatches,
    } = status
    else {
        panic!("expected combined failure, got {status:?}")
    };
    assert_eq!(missing, vec!["plan_hash".to_owned()]);
    assert_eq!(mismatches.len(), 1);
}

#[test]
fn mismatch_order_follows_required_order() {
    let provenance = ReplayProvenance {
        input_hash: Some("aa".into()),
        plan_hash: Some("bb".into()),
        replay: ReplayMetadata {
            replayable: true,
            required_hashes: vec!["plan_hash".into(), "input_hash".into()],
            reasons: Vec::new(),
        },
        ..ReplayProvenance::default()
    };
    let obs = ObservedHashes {
        project_hash: None,
        input_hash: Some("x".into()),
        plan_hash: Some("y".into()),
        result_hash: None,
    };
    assert_eq!(
        verify_replay(&provenance, &obs),
        ReplayStatus::Failed {
            missing: Vec::new(),
            mismatches: vec![
                HashMismatch {
                    field: "plan_hash".into(),
                    expected: "bb".into(),
                    observed: "y".into(),
                },
                HashMismatch {
                    field: "input_hash".into(),
                    expected: "aa".into(),
                    observed: "x".into(),
                },
            ],
        }
    );
}

#[test]
fn observing_the_own_pins_replays() {
    let provenance = ReplayProvenance {
        project_hash: Some("p".into()),
        input_hash: Some("i".into()),
        plan_hash: Some("pl".into()),
        result_hash: Some("r".into()),
        seed: Some(7),
        replay: ReplayMetadata {
            replayable: true,
            required_hashes: vec![
                "project_hash".into(),
                "input_hash".into(),
                "plan_hash".into(),
                "result_hash".into(),
            ],
            reasons: Vec::new(),
        },
    };
    let obs = ObservedHashes {
        project_hash: Some("p".into()),
        input_hash: Some("i".into()),
        plan_hash: Some("pl".into()),
        result_hash: Some("r".into()),
    };
    assert_eq!(verify_replay(&provenance, &obs), ReplayStatus::Replayable);
}

#[test]
fn not_replayable_ignores_observations() {
    let provenance = ReplayProvenance {
        input_hash: Some("aa".into()),
        replay: ReplayMetadata {
            replayable: false,
            required_hashes: vec!["input_hash".into()],
            reasons: Vec::new(),
        },
        ..ReplayProvenance::default()
    };
    assert_eq!(
        verify_replay(&provenance, &ObservedHashes::default()),
        ReplayStatus::NotReplayable { reasons: Vec::new() }
    );
}
