use openfang::error::OpenFangError;
use openfang::ids::{AgentId, SessionId, UserId};
use openfang::memory::backend::{SemanticBackend, StorageConfig};
use openfang::memory::extractions::{SessionExtraction, SessionExtractionStore};
use openfang::memory::sessions::{Session, SessionStore};
use openfang::memory::substrate::MemorySubstrate;
use openfang::memory::task_queue::TaskQueue;
use openfang::memory::time::Timestamp;
use openfang::memory::user_agent_memory::UserAgentMemoryTopic;
use openfang::memory::user_memory::MemoryTopic;
use openfang::message::Message;
use serde_json::Value;

fn open() -> MemorySubstrate {
    MemorySubstrate::open_in_memory().unwrap()
}

#[test]
fn test_rewrite_nil_user_sessions_is_idempotent_and_targeted() {
    // The one-shot fixup must rewrite ONLY the nil-UUID rows and leave
    // every other session alone; a second call after the rewrite must
    // find zero matching rows and behave as a no-op.
    let mut substrate = open();
    let agent_id = AgentId::new();
    let other_user = UserId::new();
    let target = UserId::new();
    let nil_user = UserId(uuid::Uuid::nil().as_u128());

    // Two nil-bucket sessions (the legacy default) + one explicit-user session.
    let s1 = substrate.create_session(agent_id, nil_user).unwrap();
    let s2 = substrate.create_session(agent_id, nil_user).unwrap();
    let s3 = substrate.create_session(agent_id, other_user).unwrap();

    let updated = substrate.rewrite_nil_user_sessions(target).unwrap();
    assert_eq!(updated, 2, "exactly the two nil-UUID sessions must be rewritten");

    let s1 = substrate.get_session(s1.id).unwrap().unwrap();
    let s2 = substrate.get_session(s2.id).unwrap().unwrap();
    let s3 = substrate.get_session(s3.id).unwrap().unwrap();
    assert_eq!(s1.user_id, target);
    assert_eq!(s2.user_id, target);
    assert_eq!(s3.user_id, other_user, "non-nil sessions must NOT be touched");

    // Second call is a no-op (no nil rows left).
    let updated2 = substrate.rewrite_nil_user_sessions(target).unwrap();
    assert_eq!(updated2, 0);
}

#[test]
fn test_create_session_via_substrate_routes_user_id() {
    // The substrate's `create_session` proxy must forward the user_id
    // through to the session store rather than silently dropping it.
    let mut substrate = open();
    let agent_id = AgentId::new();
    let user = UserId::new();

    let session = substrate.create_session(agent_id, user).unwrap();
    assert_eq!(session.user_id, user);

    let default_session = substrate.create_session(agent_id, UserId::nil()).unwrap();
    assert_eq!(default_session.user_id, UserId::nil());
}

#[test]
fn test_substrate_kv() {
    let mut substrate = open();
    let agent_id = AgentId::new();
    substrate.structured_set(agent_id, "key", Value::from("value")).unwrap();
    let val = substrate.structured_get(agent_id, "key").unwrap();
    assert_eq!(val, Some(Value::from("value")));
}

#[test]
fn kv_pairs_belong_to_an_agent() {
    let mut substrate = open();
    let agent = AgentId::new();
    substrate.structured_set(agent, "b", Value::from(1)).unwrap();
    substrate.structured_set(agent, "a", Value::from(true)).unwrap();
    substrate.structured_set(agent, "b", Value::from(2)).unwrap();
    assert_eq!(substrate.structured_get(AgentId::new(), "b").unwrap(), None);
    let mut pairs = substrate.list_kv(agent).unwrap();
    pairs.sort_by(|x, y| x.0.cmp(&y.0));
    assert_eq!(
        pairs,
        vec![("a".to_string(), Value::from(true)), ("b".to_string(), Value::from(2))]
    );
    substrate.structured_delete(agent, "a").unwrap();
    substrate.structured_delete(agent, "a").unwrap();
    assert_eq!(substrate.list_kv(agent).unwrap().len(), 1);
    assert_eq!(substrate.entry_rows().len(), 1);
}

#[test]
fn test_task_post_and_list() {
    let mut substrate = open();
    let id = substrate
        .task_post(
            "Review code",
            "Check the auth module for issues",
            Some("auditor"),
            Some("orchestrator"),
        )
        .unwrap();
    assert!(!id.is_empty());

    let tasks = substrate.task_list(Some("pending")).unwrap();
    assert_eq!(tasks.len(), 1);
    assert_eq!(tasks[0]["title"], "Review code");
    assert_eq!(tasks[0]["assigned_to"], "auditor");
    assert_eq!(tasks[0]["status"], "pending");
}

#[test]
fn test_task_claim_and_complete() {
    let mut substrate = open();
    let task_id = substrate
        .task_post(
            "Audit endpoint",
            "Security audit the /api/login endpoint",
            Some("auditor"),
            None,
        )
        .unwrap();

    // Claim the task
    let claimed = substrate.task_claim("auditor").unwrap();
    assert!(claimed.is_some());
    let claimed = claimed.unwrap();
    assert_eq!(claimed["id"], task_id);
    assert_eq!(claimed["status"], "in_progress");

    // Complete the task
    substrate.task_complete(&task_id, "No vulnerabilities found").unwrap();

    // Verify it shows as completed
    let tasks = substrate.task_list(Some("completed")).unwrap();
    assert_eq!(tasks.len(), 1);
    assert_eq!(tasks[0]["result"], "No vulnerabilities found");
}

#[test]
fn test_task_claim_empty() {
    let mut substrate = open();
    let claimed = substrate.task_claim("nobody").unwrap();
    assert!(claimed.is_none());
}

#[test]
fn tasks_are_claimed_oldest_first_and_once() {
    let mut queue = TaskQueue::new();
    queue.post("t2", "2026-01-02T00:00:00+00:00", "second", "", None, Some("me")).unwrap();
    queue.post("t1", "2026-01-01T00:00:00+00:00", "first", "", None, None).unwrap();
    queue.post("t0", "2025-01-01T00:00:00+00:00", "other", "", Some("bob"), None).unwrap();
    let first = queue.task_claim("amy").unwrap().unwrap();
    assert_eq!(first["id"], "t1");
    assert_eq!(first["assigned_to"], "amy");
    let second = queue.task_claim("amy").unwrap().unwrap();
    assert_eq!(second["id"], "t2");
    assert_eq!(second["created_by"], "me");
    assert!(queue.task_claim("amy").unwrap().is_none());
    assert_eq!(queue.task_claim("bob").unwrap().unwrap()["id"], "t0");
    // The list shows the newest first.
    let listed: Vec<String> = queue
        .task_list(None)
        .unwrap()
        .iter()
        .map(|t| t["id"].as_str().unwrap().to_string())
        .collect();
    assert_eq!(listed, vec!["t2", "t1", "t0"]);
    queue.complete("t1", "fine", "2026-02-01T00:00:00+00:00").unwrap();
    let done = queue.task_list(Some("completed")).unwrap();
    assert_eq!(done[0]["completed_at"], "2026-02-01T00:00:00+00:00");
    assert!(queue.task_list(Some("pending")).unwrap().is_empty());
}

#[test]
fn a_posted_id_cannot_be_posted_again() {
    let mut queue = TaskQueue::new();
    queue.post("t", "2026-01-01T00:00:00+00:00", "x", "", None, None).unwrap();
    assert!(matches!(
        queue.post("t", "2026-01-01T00:00:00+00:00", "y", "", None, None),
        Err(OpenFangError::Memory(_))
    ));
    assert_eq!(queue.all_tasks().len(), 1);
}

#[test]
fn an_unknown_task_cannot_be_completed() {
    let mut substrate = open();
    match substrate.task_complete("nope", "r") {
        Err(OpenFangError::Internal(text)) => assert_eq!(text, "Task not found: nope"),
        other => panic!("expected an error, got {other:?}"),
    }
}

fn seed_memory(substrate: &mut MemorySubstrate, user_id: UserId, agent_id: AgentId) {
    substrate
        .upsert_user_topic(&MemoryTopic {
            user_id,
            topic: "prefs".into(),
            summary: "summary".into(),
            content: "content".into(),
            updated_at: Timestamp::now(),
            expires_at: None,
        })
        .unwrap();
    substrate
        .upsert_user_agent_topic(&UserAgentMemoryTopic {
            user_id,
            agent_id,
            topic: "with-jeeves".into(),
            summary: "summary".into(),
            content: "content".into(),
            updated_at: Timestamp::now(),
        })
        .unwrap();
    let session = substrate.create_session(agent_id, user_id).unwrap();
    substrate
        .append_extraction(
            session.id,
            &SessionExtraction { facts: vec!["a fact".into()], ..Default::default() },
        )
        .unwrap();
}

#[test]
fn test_wipe_user_returns_per_bucket_counts() {
    let mut substrate = open();
    let user = UserId::new();
    let agent = AgentId::new();
    seed_memory(&mut substrate, user, agent);

    let counts = substrate.wipe_user(user).unwrap();
    assert_eq!(counts.topics_deleted, 1);
    assert_eq!(counts.agent_topics_deleted, 1);
    assert_eq!(counts.extractions_deleted, 1);

    // Confirm the buckets are actually empty.
    assert!(substrate.user_topic_index(user).unwrap().is_empty());
    assert!(substrate.user_agent_topic_index(user, agent).unwrap().is_empty());
}

#[test]
fn test_wipe_user_is_scoped_to_target() {
    // Wiping user A must not touch user B's data in any of the three
    // buckets.
    let mut substrate = open();
    let agent = AgentId::new();
    let user_a = UserId::new();
    let user_b = UserId::new();

    seed_memory(&mut substrate, user_a, agent);
    seed_memory(&mut substrate, user_b, agent);

    let counts = substrate.wipe_user(user_a).unwrap();
    assert_eq!(counts.topics_deleted, 1);
    assert_eq!(counts.agent_topics_deleted, 1);
    assert_eq!(counts.extractions_deleted, 1);

    // User B still has everything.
    assert_eq!(substrate.user_topic_index(user_b).unwrap().len(), 1);
    assert_eq!(substrate.user_agent_topic_index(user_b, agent).unwrap().len(), 1);
    let audit = substrate.list_user_extraction_audit(user_b, 10).unwrap();
    assert_eq!(audit.len(), 1);
}

#[test]
fn test_wipe_user_idempotent_zero_counts() {
    // Re-running wipe on an already-clean user returns 0/0/0 without
    // erroring.
    let mut substrate = open();
    let user = UserId::new();
    let counts = substrate.wipe_user(user).unwrap();
    assert_eq!(counts.topics_deleted, 0);
    assert_eq!(counts.agent_topics_deleted, 0);
    assert_eq!(counts.extractions_deleted, 0);
}

#[test]
fn test_audit_surfaces_session_deleted_flag() {
    // Deleting the originating session must NOT lose the audit row:
    // attribution survives with the row, and `session_deleted` flips to true.
    let mut substrate = open();
    let user = UserId::new();
    let agent = AgentId::new();
    let session = substrate.create_session(agent, user).unwrap();
    substrate.append_extraction(session.id, &SessionExtraction::default()).unwrap();

    // Before delete: session_deleted = false.
    let audit = substrate.list_user_extraction_audit(user, 10).unwrap();
    assert_eq!(audit.len(), 1);
    assert!(!audit[0].4, "session_deleted should start false");

    // Delete the session.
    substrate.delete_session(session.id).unwrap();

    // After delete: extraction row still attributed to `user`, flag flips.
    let audit = substrate.list_user_extraction_audit(user, 10).unwrap();
    assert_eq!(audit.len(), 1, "extraction must survive session delete");
    assert!(audit[0].4, "session_deleted should flip to true");
}

#[test]
fn audit_is_limited_and_names_the_row() {
    let mut substrate = open();
    let user = UserId::new();
    let agent = AgentId::new();
    let session = substrate.create_session(agent, user).unwrap();
    for _ in 0..3 {
        substrate.append_extraction(session.id, &SessionExtraction::default()).unwrap();
    }
    let audit = substrate.list_user_extraction_audit(user, 2).unwrap();
    assert_eq!(audit.len(), 2);
    assert_eq!(audit[0].1, session.id.to_string());
    assert_eq!(audit[0].2, agent.to_string());
    assert_eq!(substrate.load_extractions(session.id).unwrap().len(), 3);
    assert_eq!(substrate.delete_user_extractions(UserId::new()).unwrap(), 0);
    assert_eq!(substrate.delete_user_extractions(user).unwrap(), 3);
    assert!(substrate.load_extractions(session.id).unwrap().is_empty());
}

#[test]
fn extractions_of_a_session_are_deleted_with_it_only_on_request() {
    let mut substrate = open();
    let session = substrate.create_session(AgentId::new(), UserId::new()).unwrap();
    let extraction =
        SessionExtraction { tasks: vec!["write".into()], ..SessionExtraction::default() };
    substrate.append_extraction(session.id, &extraction).unwrap();
    let loaded = substrate.load_extractions(session.id).unwrap();
    assert_eq!(loaded.len(), 1);
    assert_eq!(loaded[0].tasks, vec!["write"]);
    assert!(loaded[0].facts.is_empty());
    substrate.delete_extractions(session.id).unwrap();
    assert!(substrate.extraction_rows().is_empty());
}

#[test]
fn session_tree_is_deleted_as_a_whole() {
    let mut substrate = open();
    let agent = AgentId::new();
    let user = UserId::new();
    let root = substrate.create_session(agent, user).unwrap();
    let fork = |id: u128, parent: SessionId| Session {
        id: SessionId(id),
        agent_id: agent,
        user_id: user,
        messages: vec![Message::user("hi")],
        context_window_tokens: 5,
        label: None,
        parent_session_id: Some(parent),
    };
    substrate.save_session(&fork(11, root.id)).unwrap();
    substrate.save_session(&fork(12, SessionId(11))).unwrap();
    let apart = substrate.create_session(agent, user).unwrap();
    assert_eq!(substrate.delete_session_tree(SessionId(99)).unwrap(), 0);
    assert_eq!(substrate.delete_session_tree(root.id).unwrap(), 3);
    assert!(substrate.get_session(SessionId(12)).unwrap().is_none());
    assert!(substrate.get_session(apart.id).unwrap().is_some());
    substrate.delete_agent_sessions(agent).unwrap();
    assert!(substrate.session_rows().is_empty());
}

#[test]
fn sessions_are_found_by_label() {
    let mut substrate = open();
    let agent = AgentId::new();
    let session = substrate.create_session(agent, UserId::new()).unwrap();
    substrate.set_session_label(session.id, Some("work")).unwrap();
    let found = substrate.find_session_by_label(agent, "work").unwrap().unwrap();
    assert_eq!(found.id, session.id);
    assert!(substrate.find_session_by_label(AgentId::new(), "work").unwrap().is_none());
    substrate.set_session_label(session.id, None).unwrap();
    assert!(substrate.find_session_by_label(agent, "work").unwrap().is_none());
}

#[test]
fn devices_are_saved_and_replaced() {
    let mut substrate = open();
    substrate.save_paired_device("d1", "Phone", "ios", "t0", "t1", Some("tok")).unwrap();
    substrate.save_paired_device("d1", "Phone 2", "ios", "t0", "t2", None).unwrap();
    let devices = substrate.load_paired_devices().unwrap();
    assert_eq!(devices.len(), 1);
    assert_eq!(devices[0]["display_name"], "Phone 2");
    assert_eq!(devices[0]["last_seen"], "t2");
    assert_eq!(devices[0]["push_token"], Value::Null);
    substrate.remove_paired_device("d1").unwrap();
    substrate.remove_paired_device("d1").unwrap();
    assert!(substrate.load_paired_devices().unwrap().is_empty());
}

#[test]
fn nothing_is_exported_or_imported() {
    let mut substrate = open();
    assert!(substrate.export().unwrap().is_empty());
    let report = substrate.import(b"data").unwrap();
    assert_eq!(report.memories_imported, 0);
    assert_eq!(report.errors, vec!["Import not yet implemented in Phase 1"]);
}

#[test]
fn rows_can_be_put_back() {
    let mut first = open();
    let user = UserId::new();
    let agent = AgentId::new();
    seed_memory(&mut first, user, agent);
    first.store_user_topic_embedding(user, "prefs", &[1, 2]).unwrap();
    first.task_post("t", "d", None, None).unwrap();
    let mut second = open();
    for row in first.topic_rows() {
        second.restore_topic(row);
    }
    for row in first.agent_topic_rows() {
        second.upsert_user_agent_topic(&row).unwrap();
    }
    for row in first.session_rows() {
        second.save_session(&row).unwrap();
    }
    for row in first.extraction_rows() {
        second.restore_extraction(row);
    }
    for row in first.task_rows() {
        second.restore_task(row);
    }
    assert_eq!(
        second.user_topic_embeddings_at(user, Timestamp::now()),
        (vec!["prefs".to_string()], vec![vec![1u32, 2]])
    );
    assert_eq!(
        second.list_user_extraction_audit(user, 9).unwrap(),
        first.list_user_extraction_audit(user, 9).unwrap()
    );
    assert_eq!(second.task_list(None).unwrap(), first.task_list(None).unwrap());
    assert!(second.user_agent_topic(user, agent, "with-jeeves").unwrap().is_some());
}

#[test]
fn topics_expire_and_are_pruned() {
    let mut substrate = open();
    let user = UserId::new();
    let now = Timestamp::now();
    let topic = |name: &str, expires_at: Option<Timestamp>| MemoryTopic {
        user_id: user,
        topic: name.to_string(),
        summary: "s".to_string(),
        content: "c".to_string(),
        updated_at: now,
        expires_at,
    };
    let past = Timestamp { seconds: now.seconds - 60, nanos: 0 };
    substrate.upsert_user_topic(&topic("gone", Some(past))).unwrap();
    substrate.upsert_user_topic(&topic("here", None)).unwrap();
    assert!(substrate.user_topic(user, "gone").unwrap().is_none());
    assert_eq!(substrate.user_topic(user, "here").unwrap().unwrap().content, "c");
    assert_eq!(substrate.topic_rows().len(), 2);
    assert_eq!(substrate.prune_expired_user_topics(user).unwrap(), 1);
    assert_eq!(substrate.topic_rows().len(), 1);
    substrate.delete_user_topic(user, "here").unwrap();
    assert!(substrate.topic_rows().is_empty());
    assert_eq!(substrate.delete_user_agent_memory(user, AgentId::new()).unwrap(), 0);
}

fn storage(backend: &str, url: Option<&str>, env: Option<&str>) -> StorageConfig {
    StorageConfig {
        backend: backend.to_string(),
        http_url: url.map(|s| s.to_string()),
        http_token_env: env.map(|s| s.to_string()),
    }
}

#[test]
fn gateway_needs_its_settings() {
    assert!(matches!(
        storage("http", Some("https://m"), Some("TOKEN")).semantic_backend(),
        SemanticBackend::Http { .. }
    ));
    for config in [
        storage("sqlite", Some("https://m"), Some("TOKEN")),
        storage("http", None, Some("TOKEN")),
        storage("http", Some("https://m"), None),
    ] {
        assert!(matches!(config.semantic_backend(), SemanticBackend::Sqlite));
    }
    let chosen = storage("http", Some("https://m"), Some("TOKEN")).semantic_backend();
    assert!(matches!(chosen.with_client(false), SemanticBackend::Sqlite));
}

#[test]
fn a_claimed_task_stays_claimed() {
    let mut queue = TaskQueue::new();
    queue.post("a", "2026-01-01T00:00:00+00:00", "first", "d", None, None).unwrap();
    let claimed = queue.task_claim("x").unwrap().unwrap();
    assert_eq!(claimed["id"], "a");
    queue.post("b", "2026-01-02T00:00:00+00:00", "second", "d", None, None).unwrap();
    assert!(queue.post("a", "2026-01-03T00:00:00+00:00", "again", "d", None, None).is_err());
    assert_eq!(queue.task_claim("y").unwrap().unwrap()["id"], "b");
    queue.complete("b", "done", "2026-01-04T00:00:00+00:00").unwrap();
    assert!(queue.task_claim("x").unwrap().is_none());
    queue.complete("a", "done", "2026-01-05T00:00:00+00:00").unwrap();
    assert!(queue.task_claim("x").unwrap().is_none());
    let states: Vec<String> = queue.all_tasks().into_iter().map(|t| t.status).collect();
    assert_eq!(states, vec!["completed", "completed"]);
}

#[test]
fn an_extraction_id_is_taken_once() {
    let sessions = SessionStore::new();
    let mut store = SessionExtractionStore::new();
    let session = SessionId(9);
    let first =
        SessionExtraction { facts: vec!["one".to_string()], ..SessionExtraction::default() };
    let at = "2026-01-01T00:00:00+00:00".to_string();
    store.append(&sessions, "e".to_string(), session, &first, at.clone()).unwrap();
    let second = SessionExtraction::default();
    match store.append(&sessions, "e".to_string(), session, &second, at) {
        Err(OpenFangError::Memory(text)) => {
            assert_eq!(text, "UNIQUE constraint failed: session_extractions.id");
        }
        other => panic!("expected an error, got {other:?}"),
    }
    assert_eq!(store.load_all(session).len(), 1);
    assert_eq!(store.load_all(session)[0].facts, vec!["one"]);
    for row in store.all_rows() {
        store.restore(row);
    }
    assert_eq!(store.all_rows().len(), 1);
    assert_eq!(store.all_rows()[0].user_id, UserId(0));
}
