use openfang::ids::UserId;
use openfang::memory::embedding::{pack_embedding, rank_by_score, unpack_embedding};
use openfang::memory::time::Timestamp;
use openfang::memory::user_memory::{MemoryTopic, UserMemoryStore};

fn setup() -> UserMemoryStore {
    UserMemoryStore::new()
}

fn make_topic(user_id: UserId, topic: &str, summary: &str, content: &str) -> MemoryTopic {
    MemoryTopic {
        user_id,
        topic: topic.to_string(),
        summary: summary.to_string(),
        content: content.to_string(),
        updated_at: Timestamp::now(),
        expires_at: None,
    }
}

fn moved(at: Timestamp, seconds: i64) -> Timestamp {
    Timestamp { seconds: at.seconds + seconds, ..at }
}

#[test]
fn user_memory_test_upsert_and_get_topic() {
    let mut store = setup();
    let user_id = UserId::new();
    let t = make_topic(user_id, "work_context", "Work summary", "I work at Acme.");
    store.upsert_topic(&t).unwrap();

    let loaded = store.get_topic(user_id, "work_context").unwrap().unwrap();
    assert_eq!(loaded.topic, "work_context");
    assert_eq!(loaded.summary, "Work summary");
    assert_eq!(loaded.content, "I work at Acme.");
    assert!(loaded.expires_at.is_none());
}

#[test]
fn user_memory_test_upsert_replaces_existing() {
    let mut store = setup();
    let user_id = UserId::new();
    let t1 = make_topic(user_id, "preferences", "Prefs v1", "I prefer tea.");
    store.upsert_topic(&t1).unwrap();

    let t2 = make_topic(user_id, "preferences", "Prefs v2", "I prefer coffee.");
    store.upsert_topic(&t2).unwrap();

    let loaded = store.get_topic(user_id, "preferences").unwrap().unwrap();
    assert_eq!(loaded.summary, "Prefs v2");
    assert_eq!(loaded.content, "I prefer coffee.");
}

#[test]
fn user_memory_test_get_index_returns_no_content() {
    let mut store = setup();
    let user_id = UserId::new();
    let t1 = make_topic(user_id, "aaa", "Summary A", "Full content A");
    let t2 = make_topic(user_id, "bbb", "Summary B", "Full content B");
    store.upsert_topic(&t1).unwrap();
    store.upsert_topic(&t2).unwrap();

    let index = store.get_index(user_id).unwrap();
    assert_eq!(index.len(), 2);
    assert_eq!(index[0].topic, "aaa");
    assert_eq!(index[0].summary, "Summary A");
    assert_eq!(index[1].topic, "bbb");
    assert_eq!(index[1].summary, "Summary B");
}

#[test]
fn user_memory_test_get_missing_topic_returns_none() {
    let store = setup();
    let user_id = UserId::new();
    let result = store.get_topic(user_id, "nonexistent").unwrap();
    assert!(result.is_none());
}

#[test]
fn user_memory_test_different_users_isolated() {
    let mut store = setup();
    let user_a = UserId::new();
    let user_b = UserId::new();
    let t = make_topic(user_a, "private", "A's summary", "A's content");
    store.upsert_topic(&t).unwrap();

    let result = store.get_topic(user_b, "private").unwrap();
    assert!(result.is_none());

    let index = store.get_index(user_b).unwrap();
    assert!(index.is_empty());
}

#[test]
fn test_delete_user_memory() {
    let mut store = setup();
    let user_id = UserId::new();
    let t1 = make_topic(user_id, "t1", "s1", "c1");
    let t2 = make_topic(user_id, "t2", "s2", "c2");
    store.upsert_topic(&t1).unwrap();
    store.upsert_topic(&t2).unwrap();

    store.delete_user_memory(user_id).unwrap();

    let index = store.get_index(user_id).unwrap();
    assert!(index.is_empty());
}

#[test]
fn test_delete_single_topic() {
    let mut store = setup();
    let user_id = UserId::new();
    store.upsert_topic(&make_topic(user_id, "keep", "keep", "keep")).unwrap();
    store.upsert_topic(&make_topic(user_id, "remove", "remove", "remove")).unwrap();

    store.delete_topic(user_id, "remove").unwrap();

    let index = store.get_index(user_id).unwrap();
    assert_eq!(index.len(), 1);
    assert_eq!(index[0].topic, "keep");
}

#[test]
fn test_expired_topic_invisible() {
    let mut store = setup();
    let user_id = UserId::new();
    // Topic that expired 1 hour ago
    let past = moved(Timestamp::now(), -3600);
    let t = MemoryTopic {
        user_id,
        topic: "expired".to_string(),
        summary: "old".to_string(),
        content: "stale content".to_string(),
        updated_at: Timestamp::now(),
        expires_at: Some(past),
    };
    store.upsert_topic(&t).unwrap();

    // Should not be returned by get_topic or get_index
    assert!(store.get_topic(user_id, "expired").unwrap().is_none());
    assert!(store.get_index(user_id).unwrap().is_empty());
}

#[test]
fn test_non_expired_topic_visible() {
    let mut store = setup();
    let user_id = UserId::new();
    let future = moved(Timestamp::now(), 7 * 86400);
    let t = MemoryTopic {
        user_id,
        topic: "travel".to_string(),
        summary: "upcoming trip".to_string(),
        content: "Paris trip on 2026-04-10".to_string(),
        updated_at: Timestamp::now(),
        expires_at: Some(future),
    };
    store.upsert_topic(&t).unwrap();

    let loaded = store.get_topic(user_id, "travel").unwrap();
    assert!(loaded.is_some());
    let index = store.get_index(user_id).unwrap();
    assert_eq!(index.len(), 1);
}

#[test]
fn test_prune_expired() {
    let mut store = setup();
    let user_id = UserId::new();
    let past = moved(Timestamp::now(), -3600);
    let future = moved(Timestamp::now(), 86400);

    store
        .upsert_topic(&MemoryTopic {
            user_id,
            topic: "expired".into(),
            summary: "".into(),
            content: "".into(),
            updated_at: Timestamp::now(),
            expires_at: Some(past),
        })
        .unwrap();
    store
        .upsert_topic(&MemoryTopic {
            user_id,
            topic: "valid".into(),
            summary: "".into(),
            content: "".into(),
            updated_at: Timestamp::now(),
            expires_at: Some(future),
        })
        .unwrap();
    store.upsert_topic(&make_topic(user_id, "permanent", "", "")).unwrap();

    let pruned = store.prune_expired(user_id).unwrap();
    assert_eq!(pruned, 1);

    // Permanent and future-expiry remain
    let count = store.all_rows().iter().filter(|row| row.topic.user_id == user_id).count();
    assert_eq!(count, 2);
}

fn bits(numbers: &[f32]) -> Vec<u32> {
    numbers.iter().map(|x| x.to_bits()).collect()
}

/// The names of the topics whose embedding is closest to a query.
fn search(store: &UserMemoryStore, user: UserId, query: &[f32], top_k: usize) -> Vec<String> {
    let (names, vectors) = store.embeddings_at(user, Timestamp::now());
    let scores: Vec<i64> = vectors
        .iter()
        .map(|v| {
            let dot: f32 = v.iter().zip(query).map(|(b, q)| f32::from_bits(*b) * q).sum();
            (dot * 1000.0) as i64
        })
        .collect();
    rank_by_score(&names, &scores, top_k)
}

#[test]
fn test_embedding_store_and_search() {
    let mut store = setup();
    let user_id = UserId::new();
    store
        .upsert_topic(&make_topic(user_id, "rust", "Rust programming", "loves Rust"))
        .unwrap();
    store
        .upsert_topic(&make_topic(user_id, "python", "Python programming", "also uses Python"))
        .unwrap();

    // Embed "rust" topic with [1,0,0] and "python" with [0,1,0]
    store.store_embedding(user_id, "rust", &bits(&[1.0, 0.0, 0.0])).unwrap();
    store.store_embedding(user_id, "python", &bits(&[0.0, 1.0, 0.0])).unwrap();

    // Query closest to [1,0,0]: should be "rust"
    assert_eq!(search(&store, user_id, &[1.0, 0.0, 0.0], 1), vec!["rust".to_string()]);

    // Query closest to [0,1,0]: should be "python"
    assert_eq!(search(&store, user_id, &[0.0, 1.0, 0.0], 1), vec!["python".to_string()]);
}

#[test]
fn embeddings_are_little_endian() {
    let packed = pack_embedding(&bits(&[1.0, -2.5]));
    assert_eq!(packed, vec![0, 0, 0x80, 0x3f, 0, 0, 0x20, 0xc0]);
    assert_eq!(unpack_embedding(&packed), bits(&[1.0, -2.5]));
    // Bytes past the last whole number are ignored.
    assert_eq!(unpack_embedding(&packed[..7]), bits(&[1.0]));
    assert!(unpack_embedding(&[1, 2, 3]).is_empty());
}

#[test]
fn higher_scores_come_first_and_ties_keep_their_order() {
    let names: Vec<String> = ["a", "b", "c", "d"].iter().map(|s| s.to_string()).collect();
    let scores: Vec<i64> = vec![1, 5, 1, -3];
    assert_eq!(rank_by_score(&names, &scores, 3), vec!["b", "a", "c"]);
    assert_eq!(rank_by_score(&names, &scores, 9), vec!["b", "a", "c", "d"]);
    assert!(rank_by_score(&names, &scores, 0).is_empty());
}

#[test]
fn rewriting_a_topic_keeps_its_embedding() {
    let mut store = setup();
    let user_id = UserId::new();
    store.upsert_topic(&make_topic(user_id, "t", "s", "c")).unwrap();
    store.store_embedding(user_id, "t", &bits(&[0.5])).unwrap();
    store.store_embedding(user_id, "missing", &bits(&[0.5])).unwrap();
    store.upsert_topic(&make_topic(user_id, "t", "s2", "c2")).unwrap();
    let (names, vectors) = store.embeddings_at(user_id, Timestamp::now());
    assert_eq!(names, vec!["t"]);
    assert_eq!(vectors, vec![bits(&[0.5])]);
    assert_eq!(store.all_rows().len(), 1);
}

#[test]
fn expiry_counts_whole_seconds() {
    let mut store = setup();
    let user_id = UserId::new();
    let at = Timestamp { seconds: 1_000_000, nanos: 500 };
    let mut topic = make_topic(user_id, "t", "s", "c");
    topic.expires_at = Some(at);
    store.upsert_topic(&topic).unwrap();
    assert!(store.get_topic_at(user_id, "t", moved(at, -1)).is_some());
    assert!(store.get_topic_at(user_id, "t", Timestamp { seconds: 1_000_000, nanos: 0 }).is_none());
    assert!(store.get_topic_at(user_id, "t", moved(at, 1)).is_none());
    assert_eq!(store.prune_expired_at(user_id, moved(at, -1)), 0);
    assert_eq!(store.prune_expired_at(user_id, at), 1);
    assert_eq!(store.prune_expired_at(user_id, at), 0);
}

#[test]
fn contents_follow_the_index() {
    let mut store = setup();
    let user_id = UserId::new();
    store.upsert_topic(&make_topic(user_id, "b", "sb", "cb")).unwrap();
    store.upsert_topic(&make_topic(user_id, "a", "sa", "ca")).unwrap();
    store.upsert_topic(&make_topic(UserId::new(), "0", "s", "c")).unwrap();
    let contents = store.get_contents_at(user_id, Timestamp::now());
    assert_eq!(
        contents,
        vec![("a".to_string(), "ca".to_string()), ("b".to_string(), "cb".to_string())]
    );
    let names: Vec<String> =
        store.get_index(user_id).unwrap().into_iter().map(|e| e.topic).collect();
    assert_eq!(names, vec!["a", "b"]);
}

#[test]
fn instants_are_written_and_read() {
    let at = Timestamp::parse("2026-04-11T00:00:00Z").unwrap();
    assert_eq!(at, Timestamp { seconds: 1_775_865_600, nanos: 0 });
    assert_eq!(at.to_rfc3339(), "2026-04-11T00:00:00+00:00");
    assert_eq!(Timestamp::parse("2026-04-11T02:00:00.25+02:00").unwrap().nanos, 250_000_000);
    assert!(Timestamp::parse("next week").is_err());
    let now = Timestamp::now();
    assert_eq!(Timestamp::parse(&now.to_rfc3339()).unwrap(), now);
    assert!(now.later_second(&at) || at.later_second(&now) || now.seconds == at.seconds);
}

#[test]
fn the_calendar_has_a_first_and_a_last_second() {
    let first = Timestamp::parse("-262143-01-01T00:00:00Z").unwrap();
    assert_eq!(first, Timestamp { seconds: -8_334_601_228_800, nanos: 0 });
    assert!(first.is_in_calendar());
    assert_eq!(first.to_rfc3339(), "-262143-01-01T00:00:00+00:00");
    let summer = Timestamp::parse("-262143-06-01T00:00:00Z").unwrap();
    assert_eq!(summer.seconds, -8_334_588_182_400);
    assert!(!Timestamp { seconds: -8_334_601_228_801, nanos: 0 }.is_in_calendar());
    let last = Timestamp::parse("+262142-12-31T23:59:59.999999999Z").unwrap();
    assert_eq!(last, Timestamp { seconds: 8_210_266_876_799, nanos: 999_999_999 });
    assert!(last.is_in_calendar());
    assert_eq!(last.to_rfc3339(), "+262142-12-31T23:59:59.999999999+00:00");
    assert!(!Timestamp { seconds: 8_210_266_876_800, nanos: 0 }.is_in_calendar());
    assert!(Timestamp::now().is_in_calendar());
}

#[test]
fn a_leap_second_is_in_the_calendar() {
    let leap = Timestamp::parse("2016-12-31T23:59:60.5Z").unwrap();
    assert_eq!(leap, Timestamp { seconds: 1_483_228_799, nanos: 1_500_000_000 });
    assert!(leap.is_in_calendar());
    assert_eq!(leap.to_rfc3339(), "2016-12-31T23:59:60.500+00:00");
    assert!(!Timestamp { seconds: 1_483_228_798, nanos: 1_500_000_000 }.is_in_calendar());
    assert!(!Timestamp { seconds: 1_483_228_799, nanos: 2_000_000_000 }.is_in_calendar());
}
