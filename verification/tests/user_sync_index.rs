use flare_orchestrator::field_map::FieldMap;
use flare_orchestrator::user_sync::{
    chunk_ranges, claim_deadline, parse_record_change_chunk, reschedule_failed_task, task_key,
    ConversationChange, RedisUserSyncIndexRepository, ReplayOutcome, SyncIndexError,
    UserSyncCompensationKind, UserSyncCompensationTask, UserSyncCompensationWorker, UserSyncReplay,
    RECORD_CHANGE_CHUNK_DEFAULT,
};

#[test]
fn chunk_size_never_falls_back_to_zero_or_unbounded() {
    assert_eq!(parse_record_change_chunk(None), RECORD_CHANGE_CHUNK_DEFAULT);
    assert_eq!(parse_record_change_chunk(Some("1000")), 1000);
    assert_eq!(parse_record_change_chunk(Some(" 1000 ")), 1000);
    assert_eq!(parse_record_change_chunk(Some("0")), RECORD_CHANGE_CHUNK_DEFAULT);
    assert_eq!(parse_record_change_chunk(Some("abc")), RECORD_CHANGE_CHUNK_DEFAULT);
    assert_eq!(parse_record_change_chunk(Some("")), RECORD_CHANGE_CHUNK_DEFAULT);
    assert_eq!(parse_record_change_chunk(Some("-1")), RECORD_CHANGE_CHUNK_DEFAULT);
}

#[test]
fn hundred_thousand_recipients_are_split_into_many_pipelines() {
    let users: Vec<String> = (0..100_000).map(|i| format!("u{i}")).collect();
    let size = parse_record_change_chunk(None);
    let chunks: Vec<_> = users.chunks(size).collect();
    assert_eq!(chunks.len(), 200);
    assert!(chunks.iter().all(|c| c.len() <= size));
    assert_eq!(chunks.iter().map(|c| c.len()).sum::<usize>(), 100_000);
}

#[test]
fn chunk_ranges_match_slice_chunks() {
    let ranges = chunk_ranges(1001, 500);
    assert_eq!(ranges, vec![(0, 500), (500, 1000), (1000, 1001)]);
    assert_eq!(chunk_ranges(0, 500), Vec::<(usize, usize)>::new());
    let chunks = RedisUserSyncIndexRepository::record_change_chunks(100_000, None);
    assert_eq!(chunks.len(), 200);
    assert_eq!(chunks[199], (99_500, 100_000));
    assert_eq!(
        RedisUserSyncIndexRepository::record_change_chunks(5, Some(" 2 ")),
        vec![(0, 2), (2, 4), (4, 5)]
    );
}

#[test]
fn normalized_user_ids_trims_deduplicates_and_orders() {
    let ids = vec![
        " user-b ".to_string(),
        String::new(),
        "user-a".to_string(),
        "user-b".to_string(),
    ];

    assert_eq!(
        RedisUserSyncIndexRepository::normalized_user_ids(&ids),
        vec!["user-a".to_string(), "user-b".to_string()]
    );
}

#[test]
fn keys_are_tenant_and_user_scoped() {
    assert_eq!(
        RedisUserSyncIndexRepository::version_key("tenant-a", "user-a"),
        "sync:user:tenant-a:user-a:version"
    );
    assert_eq!(
        RedisUserSyncIndexRepository::changes_key("tenant-a", "user-a"),
        "sync:user:tenant-a:user-a:changes"
    );
    assert_eq!(
        RedisUserSyncIndexRepository::conversation_state_key("tenant-a", "user-a", "conv-a"),
        "sync:user:tenant-a:user-a:conversation:conv-a"
    );
    assert_eq!(
        RedisUserSyncIndexRepository::conversation_version_key("tenant-a", "conv-a"),
        "sync:conversation:tenant-a:conv-a:version"
    );
    assert_eq!(
        RedisUserSyncIndexRepository::conversation_sync_state_key("tenant-a", "conv-a"),
        "sync:conversation:tenant-a:conv-a:state"
    );
}

#[test]
fn tenant_defaults_to_zero_when_blank() {
    assert_eq!(RedisUserSyncIndexRepository::tenant_id(Some("t1")), "t1");
    assert_eq!(RedisUserSyncIndexRepository::tenant_id(Some("  ")), "0");
    assert_eq!(RedisUserSyncIndexRepository::tenant_id(None), "0");
}

#[test]
fn normalized_known_conversation_versions_trims_deduplicates_and_keeps_highest_version() {
    let known = vec![
        (" conv-b ".to_string(), 2),
        ("conv-a".to_string(), 1),
        ("conv-b".to_string(), 7),
        (" ".to_string(), 99),
    ];

    assert_eq!(
        RedisUserSyncIndexRepository::normalized_known_conversation_versions(&known),
        vec![("conv-a".to_string(), 1), ("conv-b".to_string(), 7)]
    );
}

fn state(pairs: &[(&str, &str)]) -> FieldMap {
    let mut m = FieldMap::new();
    for (k, v) in pairs {
        m.insert(k.to_string(), v.to_string());
    }
    m
}

#[test]
fn conversation_change_from_state_detects_lagging_versions() {
    let state = state(&[
        ("conversation_id", "conv-a"),
        ("version", "3"),
        ("max_conversation_seq", "42"),
        ("updated_at_ms", "1700000000000"),
    ]);

    assert_eq!(
        RedisUserSyncIndexRepository::conversation_change_from_state("conv-a", 2, &state)
            .expect("valid state"),
        Some(ConversationChange {
            conversation_id: "conv-a".to_string(),
            version: 3,
            max_conversation_seq: 42,
            occurred_at_ms: 1_700_000_000_000,
        })
    );
    assert_eq!(
        RedisUserSyncIndexRepository::conversation_change_from_state("conv-a", 3, &state)
            .expect("valid state"),
        None
    );
}

#[test]
fn conversation_change_reports_invalid_fields() {
    let bad = state(&[("version", "x")]);
    assert_eq!(
        RedisUserSyncIndexRepository::conversation_change_from_state("conv-a", 0, &bad),
        Err(SyncIndexError::InvalidField {
            field: "version".to_string(),
            conversation_id: "conv-a".to_string()
        })
    );
    let missing = state(&[("max_conversation_seq", "5")]);
    assert_eq!(
        RedisUserSyncIndexRepository::conversation_change_from_state("conv-a", 0, &missing),
        Ok(None)
    );
    let defaults = state(&[("version", "4")]);
    assert_eq!(
        RedisUserSyncIndexRepository::conversation_change_from_state("conv-z", 1, &defaults),
        Ok(Some(ConversationChange {
            conversation_id: "conv-z".to_string(),
            version: 4,
            max_conversation_seq: 0,
            occurred_at_ms: 0,
        }))
    );
    let bad_time = state(&[("version", "4"), ("updated_at_ms", "soon")]);
    assert_eq!(
        RedisUserSyncIndexRepository::conversation_change_from_state("conv-z", 1, &bad_time),
        Err(SyncIndexError::InvalidField {
            field: "updated_at_ms".to_string(),
            conversation_id: "conv-z".to_string()
        })
    );
}

#[test]
fn repository_keeps_at_least_one_change() {
    assert_eq!(RedisUserSyncIndexRepository::new(0, 60).max_changes_per_user, 1);
    assert_eq!(RedisUserSyncIndexRepository::new(10, 60).max_changes_per_user, 10);
}

fn task(kind: UserSyncCompensationKind) -> UserSyncCompensationTask {
    UserSyncCompensationTask {
        task_id: "eager:c1:42:2".to_string(),
        tenant_id: "t".to_string(),
        kind,
        conversation_id: "c1".to_string(),
        user_ids: vec!["u1".to_string(), "u2".to_string()],
        max_conversation_seq: 42,
        occurred_at_ms: 1000,
        due_at_ms: 0,
        attempts: 0,
        last_error: None,
    }
}

#[test]
fn replay_once_replays_and_acks_eager_task() {
    let worker = UserSyncCompensationWorker::new();
    let t = task(UserSyncCompensationKind::EagerUserChanges);
    assert_eq!(
        worker.replay_request(&t),
        UserSyncReplay::ConversationChange {
            user_ids: vec!["u1".to_string(), "u2".to_string()],
            conversation_id: "c1".to_string(),
            max_conversation_seq: 42,
            occurred_at_ms: 1000,
        }
    );
    assert_eq!(
        worker.replay_outcome(t, Ok(())),
        ReplayOutcome::MarkCompleted { task_id: "eager:c1:42:2".to_string() }
    );
}

#[test]
fn replay_once_reschedules_failed_task() {
    let worker = UserSyncCompensationWorker::new();
    let t = task(UserSyncCompensationKind::ConversationVersionBump);
    assert_eq!(
        worker.replay_request(&t),
        UserSyncReplay::VersionBump {
            conversation_id: "c1".to_string(),
            max_conversation_seq: 42,
            occurred_at_ms: 1000
        }
    );
    match worker.replay_outcome(t.clone(), Err("replay".to_string())) {
        ReplayOutcome::MarkFailed { task, error, retry_after_ms } => {
            assert_eq!(task, t);
            assert_eq!(error, "replay");
            assert_eq!(retry_after_ms, 5000);
            let rescheduled = reschedule_failed_task(task, &error, 900, retry_after_ms);
            assert_eq!(rescheduled.attempts, 1);
            assert_eq!(rescheduled.due_at_ms, 5900);
            assert_eq!(rescheduled.last_error, Some("replay".to_string()));
        }
        other => panic!("unexpected outcome {other:?}"),
    }
}

#[test]
fn failed_task_error_is_truncated_and_attempts_saturate() {
    let mut t = task(UserSyncCompensationKind::EagerUserChanges);
    t.attempts = u32::MAX;
    let long = "e".repeat(600);
    let r = reschedule_failed_task(t, &long, i64::MAX - 1, 10);
    assert_eq!(r.attempts, u32::MAX);
    assert_eq!(r.last_error.map(|e| e.len()), Some(512));
    assert_eq!(r.due_at_ms, i64::MAX);
    let r2 = reschedule_failed_task(task(UserSyncCompensationKind::EagerUserChanges), "x", 100, -5);
    assert_eq!(r2.due_at_ms, 100);
}

#[test]
fn worker_defaults_and_task_keys() {
    let worker = UserSyncCompensationWorker::new();
    assert_eq!(worker.interval(), 5000);
    assert_eq!(worker.batch_size, 64);
    assert_eq!(task_key("abc"), "sync:user:compensation:task:abc");
    assert_eq!(claim_deadline(1000), 31000);
    assert_eq!(claim_deadline(i64::MAX), i64::MAX);
}
