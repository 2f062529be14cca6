use openfang::agent::{AgentManifest, MemoryConfig, MemorySystem};
use openfang::dream::dreamer::{
    build_fallback_content, conversation_messages, CompactionConfig, DreamAction, DreamPass,
    DreamResult,
};
use openfang::dream::mini_dream::{begin_mini_dream, persist_dream, worth_dreaming};
use openfang::dream::persist::{DreamPersist, PersistAction};
use openfang::dream::response::{strip_fences, DreamResponse, DreamTopic};
use openfang::ids::UserId;
use openfang::memory::extractions::SessionExtraction;
use openfang::memory::substrate::MemorySubstrate;
use openfang::memory::time::Timestamp;
use openfang::memory::user_memory::MemoryTopic;
use openfang::message::Message;
use serde_json::Value;

#[test]
fn test_dream_filters_context_injections() {
    let messages = [
        Message::user("What is 2+2?"),
        Message::context_injection("Calendar: meeting at 3pm"),
        Message::assistant("It's 4."),
        Message::context_injection("Email: 3 unread"),
    ];

    let filtered: Vec<Message> = conversation_messages(&messages);

    assert_eq!(filtered.len(), 2);
    assert!(filtered[0].content.text_content().contains("2+2"));
    assert!(filtered[1].content.text_content().contains("It's 4"));
}

/// The text of a conversation.
fn conversation_text(messages: &[Message]) -> String {
    let lines: Vec<String> =
        conversation_messages(messages).iter().map(|m| m.content.text_content()).collect();
    lines.join("\n")
}

/// A string member of an object; `None` for anything else.
fn text_member(value: &Value, key: &str) -> Option<String> {
    value.get(key)?.as_str().map(|s| s.to_string())
}

/// Decode a response.
fn decode(json: &str) -> Option<DreamResponse> {
    let value: Value = serde_json::from_str(json).ok()?;
    let supersedes = match value.get("supersedes") {
        Some(names) => names
            .as_array()?
            .iter()
            .map(|name| name.as_str().map(|s| s.to_string()))
            .collect::<Option<Vec<String>>>()?,
        None => vec![],
    };
    let topics = value
        .get("topics")?
        .as_array()?
        .iter()
        .map(|topic| {
            Some(DreamTopic {
                topic: text_member(topic, "topic")?,
                summary: text_member(topic, "summary")?,
                content: text_member(topic, "content")?,
                expires_at: text_member(topic, "expires_at"),
            })
        })
        .collect::<Option<Vec<DreamTopic>>>()?;
    Some(DreamResponse { supersedes, topics })
}

/// Run a pass against a model that gives the answers in turn, and then the last one forever.
fn dream(
    answers: &[Option<&str>],
    extractions: &[SessionExtraction],
    recent: &[Message],
    user_id: UserId,
    existing: &[(String, String)],
    config: &CompactionConfig,
) -> (DreamResult, usize) {
    let text = conversation_text(recent);
    let mut pass = DreamPass::new("test-model", extractions, &text, user_id, existing, config);
    let mut asked = 0;
    loop {
        match pass.action() {
            DreamAction::Ask(request) => {
                assert_eq!(request.model, "test-model");
                pass = pass.answer(answers[asked.min(answers.len() - 1)]);
                asked += 1;
            }
            DreamAction::Decode(json) => pass = pass.decoded(decode(&json)),
            DreamAction::Done(result) => return (result, asked),
        }
    }
}

#[test]
fn test_dream_result_has_topics() {
    let valid_response = r#"{
        "supersedes": [],
        "topics": [
            {
                "topic": "preferences",
                "summary": "User interface and work preferences",
                "content": "The user prefers dark mode. They like concise responses.",
                "expires_at": null
            },
            {
                "topic": "open_items",
                "summary": "Pending tasks and questions",
                "content": "There is a pending code review. The user wants to set up CI/CD.",
                "expires_at": null
            }
        ]
    }"#;

    let extractions = vec![SessionExtraction {
        preferences: vec!["dark mode".to_string()],
        open_items: vec!["code review pending".to_string()],
        ..SessionExtraction::default()
    }];

    let recent = vec![Message::user("Let's set up CI/CD next.")];
    let user_id = UserId::new();
    let config = CompactionConfig::default();

    let (result, asked) = dream(
        &[Some(valid_response)],
        &extractions,
        &recent,
        user_id,
        &[("preferences".to_string(), "User prefers tea".to_string())],
        &config,
    );

    assert_eq!(result.topics.len(), 2);
    assert_eq!(result.topics[0].topic, "preferences");
    assert_eq!(result.topics[1].topic, "open_items");
    assert_eq!(result.user_id, user_id);
    assert!(result.superseded_topics.is_empty());
    assert_eq!(asked, 1);
}

#[test]
fn test_dream_conflict_resolution() {
    let response_with_supersedes = r#"{
        "supersedes": ["old_preferences"],
        "topics": [
            {
                "topic": "preferences",
                "summary": "Updated preferences",
                "content": "User now prefers coffee (changed from tea).",
                "expires_at": null
            }
        ]
    }"#;

    let user_id = UserId::new();
    let (result, _) = dream(
        &[Some(response_with_supersedes)],
        &[],
        &[],
        user_id,
        &[("old_preferences".to_string(), "User prefers tea".to_string())],
        &CompactionConfig::default(),
    );

    assert_eq!(result.superseded_topics, vec!["old_preferences".to_string()]);
    assert_eq!(result.topics.len(), 1);
    assert_eq!(result.topics[0].topic, "preferences");
}

const WITH_EXPIRY: &str = r#"{
    "supersedes": [],
    "topics": [
        {
            "topic": "upcoming_travel",
            "summary": "Paris trip",
            "content": "Flying to Paris on April 10.",
            "expires_at": "2026-04-11T00:00:00Z"
        },
        {
            "topic": "preferences",
            "summary": "Durable preferences",
            "content": "Prefers concise answers.",
            "expires_at": null
        }
    ]
}"#;

#[test]
fn test_dream_expiry_tagging() {
    let user_id = UserId::new();
    let (result, _) =
        dream(&[Some(WITH_EXPIRY)], &[], &[], user_id, &[], &CompactionConfig::default());

    assert_eq!(result.topics.len(), 2);
    assert!(result.topics[0].expires_at.is_some());
    assert!(result.topics[1].expires_at.is_none());
}

#[test]
fn test_dream_fallback_on_parse_error() {
    let extractions = vec![SessionExtraction {
        facts: vec!["User uses Rust".to_string()],
        ..SessionExtraction::default()
    }];

    let config = CompactionConfig { max_retries: 2, ..CompactionConfig::default() };

    let user_id = UserId::new();
    let (result, asked) = dream(
        &[Some("this is not valid json at all!!!")],
        &extractions,
        &[],
        user_id,
        &[],
        &config,
    );

    assert_eq!(result.topics.len(), 1);
    assert_eq!(result.topics[0].topic, "general");
    assert!(result.topics[0].content.contains("User uses Rust"));
    assert!(result.superseded_topics.is_empty());
    assert_eq!(asked, 2);
}

#[test]
fn first_answer_that_can_be_read_counts() {
    let good = r#"{"topics":[{"topic":"t","summary":"s","content":"c"}]}"#;
    let later = r#"{"topics":[]}"#;
    let config = CompactionConfig { max_retries: 5, max_summary_tokens: 8 };
    let answers = [None, Some(""), Some("{}"), Some(good), Some(later)];
    let (result, asked) = dream(&answers, &[], &[], UserId::new(), &[], &config);
    assert_eq!(asked, 4);
    assert_eq!(result.topics.len(), 1);
    assert_eq!(result.topics[0].content, "c");
}

#[test]
fn fenced_answers_are_unwrapped() {
    let fenced = "  ```json\n{\"topics\":[],\"supersedes\":[\"x\"]}\n```\n";
    assert_eq!(strip_fences(fenced), "{\"topics\":[],\"supersedes\":[\"x\"]}");
    assert_eq!(strip_fences("```\n[1]```"), "[1]");
    assert_eq!(strip_fences(" [1]\n"), "[1]");
    assert_eq!(strip_fences("```"), "");
    assert_eq!(strip_fences("a ``` b"), "a ``` b");
    let config = CompactionConfig { max_retries: 1, max_summary_tokens: 8 };
    let (result, asked) = dream(&[Some(fenced)], &[], &[], UserId::new(), &[], &config);
    assert_eq!(asked, 1);
    assert!(result.topics.is_empty());
    assert_eq!(result.superseded_topics, vec!["x"]);
}

#[test]
fn each_attempt_asks_and_then_decodes() {
    let config = CompactionConfig { max_retries: 2, max_summary_tokens: 8 };
    let mut pass = DreamPass::new("m", &[], "", UserId(3), &[], &config);
    assert!(matches!(pass.action(), DreamAction::Ask(_)));
    pass = pass.answer(Some("```json\nfirst\n```"));
    match pass.action() {
        DreamAction::Decode(json) => assert_eq!(json, "first"),
        other => panic!("expected to decode, got {other:?}"),
    }
    pass = pass.decoded(None);
    assert!(matches!(pass.action(), DreamAction::Ask(_)));
    pass = pass.answer(Some("second"));
    match pass.action() {
        DreamAction::Decode(json) => assert_eq!(json, "second"),
        other => panic!("expected to decode, got {other:?}"),
    }
    let reply = DreamResponse {
        supersedes: vec!["old".to_string()],
        topics: vec![DreamTopic {
            topic: "t".to_string(),
            summary: "s".to_string(),
            content: "c".to_string(),
            expires_at: None,
        }],
    };
    match pass.decoded(Some(reply)).action() {
        DreamAction::Done(result) => {
            assert_eq!(result.user_id, UserId(3));
            assert_eq!(result.topics[0].content, "c");
            assert_eq!(result.superseded_topics, vec!["old"]);
        }
        other => panic!("expected the result, got {other:?}"),
    }
}

#[test]
fn failed_and_empty_answers_use_up_attempts() {
    let config = CompactionConfig { max_retries: 2, max_summary_tokens: 8 };
    let pass = DreamPass::new("m", &[], "", UserId(3), &[], &config);
    let pass = pass.answer(None);
    assert!(matches!(pass.action(), DreamAction::Ask(_)));
    match pass.answer(Some("")).action() {
        DreamAction::Done(result) => assert_eq!(result.topics[0].topic, "general"),
        other => panic!("expected the fallback, got {other:?}"),
    }
}

#[test]
fn the_request_holds_everything() {
    let extraction = |fact: &str| SessionExtraction {
        facts: vec![fact.to_string()],
        ..SessionExtraction::default()
    };
    let config = CompactionConfig { max_retries: 1, max_summary_tokens: 100 };
    let pass = DreamPass::new(
        "m",
        &[extraction("one"), extraction("two")],
        "User: hello",
        UserId(1),
        &[("a".to_string(), "A!".to_string()), ("b".to_string(), "B!".to_string())],
        &config,
    );
    match pass.action() {
        DreamAction::Ask(request) => {
            assert_eq!(request.max_tokens, 200);
            assert!(request.prompt.starts_with(
                "You are consolidating a conversation into persistent user memory organized by topic.\n\nAccumulated insights from this session:\nFacts: one; two\nPreferences: (none)\nDecisions: (none)\nTasks completed: (none)\nOpen items: (none)\n\nRecent conversation:\nUser: hello\n\nExisting memory topics (full content \u{2014} check for contradictions):\n  [a]: A!\n  [b]: B!\n\nInstructions:\n1. Produce 3-7 named memory topics"
            ));
            assert!(request.prompt.ends_with("\"expires_at\": null\n}\n]\n}"));
            assert!(request.system.starts_with("You are a memory consolidation assistant. "));
        }
        _ => panic!("nothing was asked"),
    }
    let none = DreamPass::new("m", &[], "", UserId(1), &[], &CompactionConfig { max_retries: 0, max_summary_tokens: 1 });
    assert!(matches!(none.action(), DreamAction::Done(_)));
}

#[test]
fn fallback_content_lists_what_there_is() {
    let items = |list: &[&str]| -> Vec<String> { list.iter().map(|s| s.to_string()).collect() };
    let none: Vec<String> = vec![];
    assert_eq!(
        build_fallback_content(&items(&["f1", "f2"]), &none, &items(&["d"]), &none, &items(&["o"])),
        "Facts: f1; f2\nDecisions: d\nOpen items: o"
    );
    assert_eq!(
        build_fallback_content(&none, &items(&["p"]), &none, &items(&["t"]), &none),
        "Preferences: p\nTasks: t"
    );
    assert_eq!(
        build_fallback_content(&none, &none, &none, &none, &none),
        "No structured information extracted from this session."
    );
}

/// Behavioural gate: the agent loop must only run the mini-dream when the agent's manifest opts
/// in to structured memory.
#[test]
fn test_structured_memory_gate_skips_default_agents() {
    let default_agent = AgentManifest::default();
    assert!(
        !default_agent.memory.is_structured(),
        "default agents must NOT trigger structured extraction / dreamer"
    );
    assert_eq!(default_agent.memory.system, MemorySystem::Summarization);
}

#[test]
fn test_structured_memory_gate_fires_for_opted_in_agents() {
    // Agent that opts in to structured memory.
    let opted_in = AgentManifest {
        memory: MemoryConfig { system: MemorySystem::Structured },
        ..AgentManifest::default()
    };
    assert!(
        opted_in.memory.is_structured(),
        "agents with memory.system = structured MUST trigger structured extraction / dreamer"
    );
}

fn topic(user_id: UserId, name: &str, content: &str) -> MemoryTopic {
    MemoryTopic {
        user_id,
        topic: name.to_string(),
        summary: "s".to_string(),
        content: content.to_string(),
        updated_at: Timestamp { seconds: 1, nanos: 0 },
        expires_at: None,
    }
}

#[test]
fn mini_dream_needs_something_to_keep() {
    let memory = MemorySubstrate::open_in_memory().unwrap();
    let config = CompactionConfig::default();
    let now = Timestamp::now();
    let messages = [Message::user("hi")];
    let empty = SessionExtraction::default();
    let full = SessionExtraction { decisions: vec!["d".into()], ..SessionExtraction::default() };
    assert!(!worth_dreaming(&empty));
    assert!(worth_dreaming(&full));
    let begin = |messages: &[Message], extraction: Option<&SessionExtraction>| {
        begin_mini_dream(messages, extraction, "", UserId(1), "m", &memory, &config, now).is_some()
    };
    assert!(!begin(&[], Some(&full)));
    assert!(!begin(&messages, None));
    assert!(!begin(&messages, Some(&empty)));
    assert!(begin(&messages, Some(&full)));
}

#[test]
fn mini_dream_shows_the_existing_topics() {
    let mut memory = MemorySubstrate::open_in_memory().unwrap();
    let user = UserId::new();
    memory.upsert_user_topic(&topic(user, "tea", "likes tea")).unwrap();
    memory.upsert_user_topic(&topic(UserId::new(), "other", "secret")).unwrap();
    let full = SessionExtraction { tasks: vec!["t".into()], ..SessionExtraction::default() };
    let pass = begin_mini_dream(
        &[Message::user("hi")],
        Some(&full),
        "User: hi",
        user,
        "m",
        &memory,
        &CompactionConfig::default(),
        Timestamp::now(),
    )
    .unwrap();
    match pass.action() {
        DreamAction::Ask(request) => {
            assert!(request.prompt.contains("  [tea]: likes tea\n"));
            assert!(!request.prompt.contains("secret"));
        }
        _ => panic!("nothing was asked"),
    }
}

#[test]
fn a_dream_is_persisted() {
    let mut memory = MemorySubstrate::open_in_memory().unwrap();
    let user = UserId::new();
    let other = UserId::new();
    for name in ["old", "kept", "both"] {
        memory.upsert_user_topic(&topic(user, name, "before")).unwrap();
        memory.upsert_user_topic(&topic(other, name, "before")).unwrap();
    }
    let dreamed = |name: &str, expires_at: Option<&str>| DreamTopic {
        topic: name.to_string(),
        summary: "new".to_string(),
        content: "after".to_string(),
        expires_at: expires_at.map(|s| s.to_string()),
    };
    let result = DreamResult {
        topics: vec![
            dreamed("both", None),
            dreamed("trip", Some("2026-04-11T00:00:00Z")),
            dreamed("odd", Some("soon")),
        ],
        user_id: user,
        superseded_topics: vec!["old".to_string(), "both".to_string(), "absent".to_string()],
    };
    let now = Timestamp { seconds: 1_000, nanos: 0 };
    assert_eq!(persist_dream(&mut memory, &result, now), 3);
    let read = |name: &str| memory.user_topic_at(user, name, now);
    assert!(read("old").is_none());
    assert_eq!(read("kept").unwrap().content, "before");
    assert_eq!(read("both").unwrap().content, "after");
    assert_eq!(read("both").unwrap().updated_at, now);
    assert_eq!(
        read("trip").unwrap().expires_at,
        Some(Timestamp { seconds: 1_775_865_600, nanos: 0 })
    );
    assert_eq!(read("odd").unwrap().expires_at, None);
    assert_eq!(memory.user_topic_at(other, "old", now).unwrap().content, "before");
    assert!(memory
        .user_topic_at(user, "trip", Timestamp { seconds: 1_775_865_600, nanos: 0 })
        .is_none());
}

/// Run a pass whose attempts succeed where `succeeds` says so. Returns what was attempted and the
/// count that was reported.
fn run_pass(
    result: DreamResult,
    now: Timestamp,
    embedding: bool,
    succeeds: fn(&PersistAction) -> bool,
) -> (Vec<String>, usize) {
    let mut attempts = Vec::new();
    let mut pass = DreamPersist::new(result, now, embedding);
    loop {
        let action = pass.action();
        match &action {
            PersistAction::Delete { name, .. } => attempts.push(format!("delete {name}")),
            PersistAction::Write(topic) => attempts.push(format!("write {}", topic.topic)),
            PersistAction::Embed { topic, content, .. } => {
                attempts.push(format!("embed {topic}: {content}"));
            }
            PersistAction::Done(count) => return (attempts, *count),
        }
        pass = pass.outcome(succeeds(&action));
    }
}

fn three_topics() -> DreamResult {
    let dreamed = |name: &str| DreamTopic {
        topic: name.to_string(),
        summary: "s".to_string(),
        content: format!("about {name}"),
        expires_at: None,
    };
    DreamResult {
        topics: vec![dreamed("a"), dreamed("b"), dreamed("c")],
        user_id: UserId(7),
        superseded_topics: vec!["x".to_string(), "y".to_string()],
    }
}

#[test]
fn every_success_is_counted() {
    let now = Timestamp { seconds: 1_000, nanos: 0 };
    let (attempts, count) = run_pass(three_topics(), now, true, |_| true);
    assert_eq!(count, 3);
    assert_eq!(
        attempts,
        vec![
            "delete x",
            "delete y",
            "write a",
            "embed a: about a",
            "write b",
            "embed b: about b",
            "write c",
            "embed c: about c"
        ]
    );
    let (attempts, count) = run_pass(three_topics(), now, false, |_| true);
    assert_eq!(count, 3);
    assert_eq!(attempts, vec!["delete x", "delete y", "write a", "write b", "write c"]);
}

#[test]
fn a_failed_write_is_not_counted_and_not_embedded() {
    let now = Timestamp { seconds: 1_000, nanos: 0 };
    let (attempts, count) = run_pass(three_topics(), now, true, |action| match action {
        PersistAction::Write(topic) => topic.topic != "b",
        _ => true,
    });
    assert_eq!(count, 2);
    assert_eq!(
        attempts,
        vec![
            "delete x",
            "delete y",
            "write a",
            "embed a: about a",
            "write b",
            "write c",
            "embed c: about c"
        ]
    );
}

#[test]
fn failed_deletes_and_embeddings_stop_nothing() {
    let now = Timestamp { seconds: 1_000, nanos: 0 };
    let (attempts, count) =
        run_pass(three_topics(), now, true, |action| matches!(action, PersistAction::Write(_)));
    assert_eq!(count, 3);
    assert_eq!(attempts.len(), 8);
    let (attempts, count) = run_pass(three_topics(), now, true, |_| false);
    assert_eq!(count, 0);
    assert_eq!(attempts, vec!["delete x", "delete y", "write a", "write b", "write c"]);
}

#[test]
fn a_written_topic_is_stamped_and_owned() {
    let now = Timestamp { seconds: 1_000, nanos: 5 };
    let mut result = three_topics();
    result.superseded_topics.clear();
    result.topics[0].expires_at = Some("2026-04-11T00:00:00Z".to_string());
    let pass = DreamPersist::new(result, now, true);
    match pass.action() {
        PersistAction::Write(topic) => {
            assert_eq!(topic.user_id, UserId(7));
            assert_eq!(topic.topic, "a");
            assert_eq!(topic.content, "about a");
            assert_eq!(topic.updated_at, now);
            assert_eq!(
                topic.expires_at,
                Some(Timestamp { seconds: 1_775_865_600, nanos: 0 })
            );
        }
        _ => panic!("a write comes first"),
    }
    match pass.outcome(true).action() {
        PersistAction::Embed { owner, topic, content } => {
            assert_eq!((owner, topic.as_str(), content.as_str()), (UserId(7), "a", "about a"));
        }
        _ => panic!("an embedding follows"),
    }
    let nothing = DreamResult { topics: vec![], user_id: UserId(7), superseded_topics: vec![] };
    assert!(matches!(DreamPersist::new(nothing, now, true).action(), PersistAction::Done(0)));
}
