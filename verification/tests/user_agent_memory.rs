use openfang::ids::{AgentId, UserId};
use openfang::memory::time::Timestamp;
use openfang::memory::user_agent_memory::{UserAgentMemoryStore, UserAgentMemoryTopic};

fn setup() -> UserAgentMemoryStore {
    UserAgentMemoryStore::new()
}

fn make_topic(
    user_id: UserId,
    agent_id: AgentId,
    topic: &str,
    summary: &str,
    content: &str,
) -> UserAgentMemoryTopic {
    UserAgentMemoryTopic {
        user_id,
        agent_id,
        topic: topic.to_string(),
        summary: summary.to_string(),
        content: content.to_string(),
        updated_at: Timestamp::now(),
    }
}

#[test]
fn user_agent_memory_test_upsert_and_get_topic() {
    let mut store = setup();
    let user_id = UserId::new();
    let agent_id = AgentId::new();
    let t = make_topic(
        user_id,
        agent_id,
        "interaction_preferences",
        "How user prefers this agent to behave",
        "Always use military time. Never suggest meetings before 9am.",
    );
    store.upsert_topic(&t).unwrap();

    let loaded = store
        .get_topic(user_id, agent_id, "interaction_preferences")
        .unwrap()
        .unwrap();
    assert_eq!(loaded.topic, "interaction_preferences");
    assert_eq!(loaded.agent_id, agent_id);
    assert_eq!(loaded.user_id, user_id);
}

#[test]
fn user_agent_memory_test_upsert_replaces_existing() {
    let mut store = setup();
    let user_id = UserId::new();
    let agent_id = AgentId::new();
    let t1 = make_topic(user_id, agent_id, "prefs", "v1", "Use formal tone.");
    store.upsert_topic(&t1).unwrap();
    let t2 = make_topic(user_id, agent_id, "prefs", "v2", "Use casual tone.");
    store.upsert_topic(&t2).unwrap();

    let loaded = store.get_topic(user_id, agent_id, "prefs").unwrap().unwrap();
    assert_eq!(loaded.summary, "v2");
    assert_eq!(loaded.content, "Use casual tone.");
}

#[test]
fn user_agent_memory_test_get_index_returns_no_content() {
    let mut store = setup();
    let user_id = UserId::new();
    let agent_id = AgentId::new();
    let t1 = make_topic(user_id, agent_id, "aaa", "Summary A", "Full content A");
    let t2 = make_topic(user_id, agent_id, "bbb", "Summary B", "Full content B");
    store.upsert_topic(&t1).unwrap();
    store.upsert_topic(&t2).unwrap();

    let index = store.get_index(user_id, agent_id).unwrap();
    assert_eq!(index.len(), 2);
    assert_eq!(index[0].topic, "aaa");
    assert_eq!(index[1].topic, "bbb");
}

#[test]
fn user_agent_memory_test_get_missing_topic_returns_none() {
    let store = setup();
    let result = store.get_topic(UserId::new(), AgentId::new(), "nonexistent").unwrap();
    assert!(result.is_none());
}

#[test]
fn user_agent_memory_test_different_users_isolated() {
    let mut store = setup();
    let user_a = UserId::new();
    let user_b = UserId::new();
    let agent_id = AgentId::new();
    let t = make_topic(user_a, agent_id, "secret", "A's topic", "A's content");
    store.upsert_topic(&t).unwrap();

    // user_b should not see user_a's topics for the same agent
    let result = store.get_topic(user_b, agent_id, "secret").unwrap();
    assert!(result.is_none());
    let index = store.get_index(user_b, agent_id).unwrap();
    assert!(index.is_empty());
}

#[test]
fn test_different_agents_isolated() {
    let mut store = setup();
    let user_id = UserId::new();
    let agent_a = AgentId::new();
    let agent_b = AgentId::new();
    let t = make_topic(user_id, agent_a, "prefs", "A's prefs", "Use formal tone.");
    store.upsert_topic(&t).unwrap();

    // Same user, different agent: should not see agent_a's topics
    let result = store.get_topic(user_id, agent_b, "prefs").unwrap();
    assert!(result.is_none());
    let index = store.get_index(user_id, agent_b).unwrap();
    assert!(index.is_empty());
}

#[test]
fn test_same_topic_key_different_agents() {
    let mut store = setup();
    let user_id = UserId::new();
    let agent_a = AgentId::new();
    let agent_b = AgentId::new();
    let ta = make_topic(user_id, agent_a, "prefs", "Agent A prefs", "Formal tone.");
    let tb = make_topic(user_id, agent_b, "prefs", "Agent B prefs", "Casual tone.");
    store.upsert_topic(&ta).unwrap();
    store.upsert_topic(&tb).unwrap();

    let loaded_a = store.get_topic(user_id, agent_a, "prefs").unwrap().unwrap();
    let loaded_b = store.get_topic(user_id, agent_b, "prefs").unwrap().unwrap();
    assert_eq!(loaded_a.content, "Formal tone.");
    assert_eq!(loaded_b.content, "Casual tone.");
}

#[test]
fn test_delete_user_agent_memory() {
    let mut store = setup();
    let user_id = UserId::new();
    let agent_id = AgentId::new();
    let t1 = make_topic(user_id, agent_id, "t1", "s1", "c1");
    let t2 = make_topic(user_id, agent_id, "t2", "s2", "c2");
    store.upsert_topic(&t1).unwrap();
    store.upsert_topic(&t2).unwrap();

    store.delete_user_agent_memory(user_id, agent_id).unwrap();
    let index = store.get_index(user_id, agent_id).unwrap();
    assert!(index.is_empty());
}

#[test]
fn test_delete_all_user_memory_across_agents() {
    let mut store = setup();
    let user_id = UserId::new();
    let agent_a = AgentId::new();
    let agent_b = AgentId::new();
    store.upsert_topic(&make_topic(user_id, agent_a, "t1", "s", "c")).unwrap();
    store.upsert_topic(&make_topic(user_id, agent_b, "t1", "s", "c")).unwrap();

    store.delete_all_user_memory(user_id).unwrap();
    assert!(store.get_index(user_id, agent_a).unwrap().is_empty());
    assert!(store.get_index(user_id, agent_b).unwrap().is_empty());
}

#[test]
fn deletion_counts_rows() {
    let mut store = setup();
    let user = UserId::new();
    let other = UserId::new();
    let agent = AgentId::new();
    for name in ["x", "y"] {
        store.upsert_topic(&make_topic(user, agent, name, "s", "c")).unwrap();
        store.upsert_topic(&make_topic(other, agent, name, "s", "c")).unwrap();
    }
    assert_eq!(store.delete_user_agent_memory(user, AgentId::new()).unwrap(), 0);
    assert_eq!(store.delete_user_agent_memory(user, agent).unwrap(), 2);
    assert_eq!(store.delete_all_user_memory(other).unwrap(), 2);
    assert!(store.all_rows().is_empty());
}
