use openfang::a2a::card::{build_agent_card, AgentCapabilities, AgentCard};
use openfang::a2a::encode::{
    write_artifact, write_message, write_status, write_task,
};
use openfang::a2a::rpc::{
    agent_card_url, deadline_error, discovered_agents, get_task_request, read_get_task_reply,
    read_send_task_reply, send_task_request, send_task_streaming_request, SYNC_STREAMING_DEADLINE,
};
use openfang::a2a::sse::{
    parse_sse_content, process_sse_line, SseLineOutcome, SseReader, SseStep,
};
use openfang::a2a::store::A2aTaskStore;
use openfang::a2a::types::{
    A2aArtifact, A2aMessage, A2aPart, A2aTask, A2aTaskStatus, A2aTaskStatusWrapper,
};
use openfang::a2a::wire::{read_artifact, read_message, read_status, read_task};
use openfang::agent::{AgentManifest, ManifestCapabilities};
use serde_json::Value;

fn parsed(text: &str) -> Value {
    serde_json::from_str(text).unwrap()
}

fn task(id: &str, status: A2aTaskStatus) -> A2aTask {
    A2aTask {
        id: id.to_string(),
        session_id: None,
        status: status.into(),
        messages: vec![],
        artifacts: vec![],
    }
}

fn text_message(role: &str, text: &str) -> A2aMessage {
    A2aMessage {
        role: role.to_string(),
        parts: vec![A2aPart::Text { text: text.to_string() }],
    }
}

#[test]
fn test_agent_card_from_manifest() {
    let manifest = AgentManifest {
        name: "test-agent".to_string(),
        description: "A test agent".to_string(),
        ..Default::default()
    };

    let card = build_agent_card(&manifest, "https://example.com");
    assert_eq!(card.name, "test-agent");
    assert_eq!(card.description, "A test agent");
    assert!(card.url.contains("/a2a"));
    assert!(card.capabilities.streaming);
    assert_eq!(card.default_input_modes, vec!["text"]);
}

#[test]
fn card_lists_one_skill_per_tool() {
    let manifest = AgentManifest {
        name: "helper".to_string(),
        capabilities: ManifestCapabilities {
            tools: vec!["web_search".to_string(), "file_read".to_string()],
        },
        ..Default::default()
    };
    let card = build_agent_card(&manifest, "https://example.com");
    assert_eq!(card.url, "https://example.com/a2a");
    assert_eq!(card.skills.len(), 2);
    assert_eq!(card.skills[0].id, "web_search");
    assert_eq!(card.skills[0].name, "web search");
    assert_eq!(card.skills[0].description, "Can use the web_search tool");
    assert_eq!(card.skills[1].id, "file_read");
    assert_eq!(card.default_output_modes, vec!["text"]);
    assert!(!card.capabilities.push_notifications);
    assert!(card.capabilities.state_transition_history);
    assert_eq!(
        AgentCapabilities::default(),
        AgentCapabilities {
            streaming: false,
            push_notifications: false,
            state_transition_history: false,
        }
    );
}

#[test]
fn test_a2a_task_status_transitions() {
    let task = A2aTask {
        id: "task-1".to_string(),
        session_id: None,
        status: A2aTaskStatus::Submitted.into(),
        messages: vec![],
        artifacts: vec![],
    };
    assert_eq!(task.status, A2aTaskStatus::Submitted);

    // Simulate progression
    let working = A2aTask { status: A2aTaskStatus::Working.into(), ..task.clone() };
    assert_eq!(working.status, A2aTaskStatus::Working);

    let completed = A2aTask { status: A2aTaskStatus::Completed.into(), ..task.clone() };
    assert_eq!(completed.status, A2aTaskStatus::Completed);

    let cancelled = A2aTask { status: A2aTaskStatus::Cancelled.into(), ..task.clone() };
    assert_eq!(cancelled.status, A2aTaskStatus::Cancelled);

    let failed = A2aTask { status: A2aTaskStatus::Failed.into(), ..task };
    assert_eq!(failed.status, A2aTaskStatus::Failed);
}

#[test]
fn test_a2a_task_status_wrapper_object_form() {
    // The object form: {"state": "completed", "message": null}
    let json = r#"{"state":"completed","message":null}"#;
    let wrapper: A2aTaskStatusWrapper = read_status(&parsed(json)).unwrap();
    assert_eq!(wrapper, A2aTaskStatus::Completed);
    assert_eq!(wrapper.state(), &A2aTaskStatus::Completed);

    // With a message payload
    let json_with_msg = r#"{"state":"working","message":{"text":"Processing..."}}"#;
    let wrapper2: A2aTaskStatusWrapper = read_status(&parsed(json_with_msg)).unwrap();
    assert_eq!(wrapper2, A2aTaskStatus::Working);

    // Bare string form
    let json_bare = r#""completed""#;
    let wrapper3: A2aTaskStatusWrapper = read_status(&parsed(json_bare)).unwrap();
    assert_eq!(wrapper3, A2aTaskStatus::Completed);
}

#[test]
fn every_status_name_is_read() {
    let names = [
        ("submitted", A2aTaskStatus::Submitted),
        ("working", A2aTaskStatus::Working),
        ("inputRequired", A2aTaskStatus::InputRequired),
        ("completed", A2aTaskStatus::Completed),
        ("cancelled", A2aTaskStatus::Cancelled),
        ("failed", A2aTaskStatus::Failed),
    ];
    for (name, status) in names {
        assert_eq!(read_status(&Value::from(name)).unwrap(), status);
        assert_eq!(write_status(&status.into()), Value::from(name));
    }
    assert!(read_status(&Value::from("Completed")).is_none());
    assert!(read_status(&Value::from(3)).is_none());
    assert!(read_status(&parsed(r#"{"message":null}"#)).is_none());
}

#[test]
fn test_a2a_artifact_optional_fields() {
    // An artifact with no name can be read
    let json = r#"{"parts":[{"type":"text","text":"hello"}]}"#;
    let artifact: A2aArtifact = read_artifact(&parsed(json)).unwrap();
    assert!(artifact.name.is_none());
    assert!(artifact.description.is_none());
    assert!(artifact.metadata.is_none());
    assert!(artifact.index.is_none());
    assert!(artifact.last_chunk.is_none());
    assert_eq!(artifact.parts.len(), 1);

    // Full artifact with all optional fields
    let json_full = r#"{"name":"output.txt","description":"The result","metadata":{"key":"val"},"index":0,"lastChunk":true,"parts":[]}"#;
    let full: A2aArtifact = read_artifact(&parsed(json_full)).unwrap();
    assert_eq!(full.name.as_deref(), Some("output.txt"));
    assert_eq!(full.description.as_deref(), Some("The result"));
    assert_eq!(full.index, Some(0));
    assert_eq!(full.last_chunk, Some(true));
    assert_eq!(full.metadata, Some(parsed(r#"{"key":"val"}"#)));
    assert_eq!(write_artifact(&full), parsed(json_full));
}

#[test]
fn test_a2a_message_serde() {
    let msg = A2aMessage {
        role: "user".to_string(),
        parts: vec![
            A2aPart::Text { text: "Hello".to_string() },
            A2aPart::Data {
                mime_type: "application/json".to_string(),
                data: parsed(r#"{"key": "value"}"#),
            },
        ],
    };

    let json = write_message(&msg).to_string();
    let back: A2aMessage = read_message(&parsed(&json)).unwrap();
    assert_eq!(back.role, "user");
    assert_eq!(back.parts.len(), 2);

    match &back.parts[0] {
        A2aPart::Text { text } => assert_eq!(text, "Hello"),
        _ => panic!("Expected Text part"),
    }
}

#[test]
fn task_is_written_and_read_back() {
    let whole = A2aTask {
        id: "t-\u{e9}".to_string(),
        session_id: Some("s-1".to_string()),
        status: A2aTaskStatusWrapper::Object {
            state: A2aTaskStatus::Working,
            message: Some(parsed(r#"{"text":"half way"}"#)),
        },
        messages: vec![text_message("agent", "quote \" and \\ and\nline")],
        artifacts: vec![A2aArtifact {
            name: None,
            description: Some("d".to_string()),
            metadata: None,
            index: Some(7),
            last_chunk: Some(false),
            parts: vec![A2aPart::File {
                name: "f".to_string(),
                mime_type: "text/plain".to_string(),
                data: "aGk=".to_string(),
            }],
        }],
    };
    let text = write_task(&whole).to_string();
    let back = read_task(&parsed(&text)).unwrap();
    assert_eq!(write_task(&back), write_task(&whole));
    assert_eq!(back.id, "t-\u{e9}");
    assert_eq!(back.session_id.as_deref(), Some("s-1"));
    assert_eq!(back.artifacts[0].index, Some(7));
    match &back.artifacts[0].parts[0] {
        A2aPart::File { name, mime_type, data } => {
            assert_eq!((name.as_str(), mime_type.as_str(), data.as_str()), ("f", "text/plain", "aGk="));
        }
        other => panic!("expected a file, got {other:?}"),
    }
    match &back.status {
        A2aTaskStatusWrapper::Object { message, .. } => {
            assert_eq!(*message, Some(parsed(r#"{"text":"half way"}"#)));
        }
        other => panic!("expected the object form, got {other:?}"),
    }
}

#[test]
fn nested_data_is_read_back() {
    let mut data = Value::from(18_446_744_073_709_551_615u64);
    for _ in 0..200 {
        data = Value::from(vec![data]);
    }
    let deep = A2aMessage {
        role: "agent".to_string(),
        parts: vec![A2aPart::Data { mime_type: "m".to_string(), data }],
    };
    let back = read_message(&write_message(&deep)).unwrap();
    assert_eq!(write_message(&back), write_message(&deep));
    assert!(read_task(&parsed(r#"{"id":"t"}"#)).is_none());
    assert!(read_message(&parsed(r#"{"role":"user"}"#)).is_none());
    assert_eq!(
        write_message(&text_message("user", "a")),
        parsed(r#"{"role":"user","parts":[{"type":"text","text":"a"}]}"#)
    );
}

#[test]
fn test_task_store_insert_and_get() {
    let mut store = A2aTaskStore::new(10);
    let task = A2aTask {
        id: "t-1".to_string(),
        session_id: None,
        status: A2aTaskStatus::Working.into(),
        messages: vec![],
        artifacts: vec![],
    };
    store.insert(task);
    assert_eq!(store.len(), 1);

    let got = store.get("t-1").unwrap();
    assert_eq!(got.status, A2aTaskStatus::Working);
}

#[test]
fn test_task_store_complete_and_fail() {
    let mut store = A2aTaskStore::new(10);
    let task = A2aTask {
        id: "t-2".to_string(),
        session_id: None,
        status: A2aTaskStatus::Working.into(),
        messages: vec![],
        artifacts: vec![],
    };
    store.insert(task);

    store.complete(
        "t-2",
        A2aMessage {
            role: "agent".to_string(),
            parts: vec![A2aPart::Text { text: "Done".to_string() }],
        },
        vec![],
    );

    let completed = store.get("t-2").unwrap();
    assert_eq!(completed.status, A2aTaskStatus::Completed);
    assert_eq!(completed.messages.len(), 1);
}

#[test]
fn failed_task_keeps_the_error() {
    let mut store = A2aTaskStore::new(10);
    store.insert(task("t", A2aTaskStatus::Working));
    store.fail("t", text_message("agent", "no luck"));
    let failed = store.get("t").unwrap();
    assert_eq!(failed.status, A2aTaskStatus::Failed);
    assert_eq!(failed.messages.len(), 1);
    store.fail("other", text_message("agent", "nobody"));
    assert_eq!(store.len(), 1);
}

#[test]
fn test_task_store_cancel() {
    let mut store = A2aTaskStore::new(10);
    let task = A2aTask {
        id: "t-3".to_string(),
        session_id: None,
        status: A2aTaskStatus::Working.into(),
        messages: vec![],
        artifacts: vec![],
    };
    store.insert(task);
    assert!(store.cancel("t-3"));
    assert_eq!(store.get("t-3").unwrap().status, A2aTaskStatus::Cancelled);
    // Cancel a nonexistent task returns false
    assert!(!store.cancel("t-999"));
}

#[test]
fn test_task_store_eviction() {
    let mut store = A2aTaskStore::new(2);
    // Insert 2 tasks
    for i in 0..2 {
        let task = A2aTask {
            id: format!("t-{i}"),
            session_id: None,
            status: A2aTaskStatus::Completed.into(),
            messages: vec![],
            artifacts: vec![],
        };
        store.insert(task);
    }
    assert_eq!(store.len(), 2);

    // Insert a 3rd: one completed task should be evicted
    let task = A2aTask {
        id: "t-2".to_string(),
        session_id: None,
        status: A2aTaskStatus::Working.into(),
        messages: vec![],
        artifacts: vec![],
    };
    store.insert(task);
    // One was evicted, plus the new one
    assert!(store.len() <= 2);
}

#[test]
fn finished_tasks_are_evicted_before_others() {
    let mut store = A2aTaskStore::new(2);
    store.insert(task("running", A2aTaskStatus::Working));
    store.insert(task("done", A2aTaskStatus::Completed));
    store.insert(task("next", A2aTaskStatus::Submitted));
    assert!(store.get("running").is_some());
    assert!(store.get("done").is_none());
    assert!(store.get("next").is_some());
    assert!(!A2aTaskStore::default().update_status("next", A2aTaskStatus::Working));
    assert!(A2aTaskStore::default().is_empty());
}

#[test]
fn status_update_is_local() {
    let mut store = A2aTaskStore::new(4);
    store.insert(task("a", A2aTaskStatus::Submitted));
    store.insert(task("b", A2aTaskStatus::Submitted));
    assert!(store.update_status("a", A2aTaskStatus::InputRequired));
    assert_eq!(store.get("a").unwrap().status, A2aTaskStatus::InputRequired);
    assert_eq!(store.get("b").unwrap().status, A2aTaskStatus::Submitted);
    assert!(store.cancel("a") && store.cancel("a"));
}

/// Build a minimal A2A JSON-RPC result payload for use in SSE lines.
fn sse_result_line(task_id: &str, status: &str, is_final: bool) -> String {
    format!(
        "data: {{\"result\":{{\"artifacts\":[],\"final\":{is_final},\"id\":\"{task_id}\",\"messages\":[],\"status\":\"{status}\"}}}}\n"
    )
}

#[test]
fn test_sse_parse_normal_completion() {
    let mut stream = String::new();
    stream.push_str(&sse_result_line("t-ok", "working", false));
    stream.push_str(&sse_result_line("t-ok", "completed", true));

    let result = parse_sse_content(&stream).expect("Should succeed on normal completion");
    assert_eq!(result.id, "t-ok");
    assert_eq!(result.status, A2aTaskStatus::Completed);
}

#[test]
fn test_sse_parse_disconnect_mid_stream() {
    let mut stream = String::new();
    stream.push_str(&sse_result_line("t-partial", "working", false));
    // Stream ends here: no final event.

    let result = parse_sse_content(&stream).expect("Should return partial result on disconnect");
    assert_eq!(result.id, "t-partial");
    assert_eq!(result.status, A2aTaskStatus::Working);
}

#[test]
fn test_sse_parse_malformed_json_skipped() {
    let mut stream = String::new();
    stream.push_str("data: {not json at all}\n");
    stream.push_str(&sse_result_line("t-after-bad", "completed", true));

    let result = parse_sse_content(&stream)
        .expect("Malformed JSON line must be skipped, valid final event returned");
    assert_eq!(result.id, "t-after-bad");
}

#[test]
fn test_sse_parse_no_final_event_returns_last_task() {
    let mut stream = String::new();
    // Three working events, none marked final.
    for _ in 0..3 {
        stream.push_str(&sse_result_line("t-nofinal", "working", false));
    }

    let result = parse_sse_content(&stream)
        .expect("Should return last task when no final event is present");
    assert_eq!(result.id, "t-nofinal");
}

#[test]
fn test_sse_parse_concatenated_lines() {
    // Build the full final-event line.
    let full_line = sse_result_line("t-chunked", "completed", true);

    // Split the line at an arbitrary point in the middle of the JSON.
    let split_at = full_line.len() / 2;
    let chunk_a = &full_line[..split_at];
    let chunk_b = &full_line[split_at..];

    let reassembled = format!("{chunk_a}{chunk_b}");
    let result =
        parse_sse_content(&reassembled).expect("Chunked event must be reassembled correctly");
    assert_eq!(result.id, "t-chunked");
    assert_eq!(result.status, A2aTaskStatus::Completed);
}

#[test]
fn test_sse_parse_error_event() {
    let stream = "data: {\"error\":{\"code\":-32600,\"message\":\"Bad request\"}}\n";
    let result = parse_sse_content(stream);
    assert!(result.is_err(), "Error event should return Err");
    let msg = result.unwrap_err();
    assert!(
        msg.contains("A2A SSE error") || msg.contains("Bad request"),
        "Error message should mention the error: {msg}"
    );
}

#[test]
fn test_sse_parse_empty_stream() {
    let result = parse_sse_content("");
    assert!(result.is_err(), "Empty stream should return Err");
    let msg = result.unwrap_err();
    assert!(
        msg.contains("without a final event") || msg.contains("no task"),
        "Error should indicate missing final event: {msg}"
    );
}

#[test]
fn error_event_is_quoted_in_full() {
    let stream = "data: {\"error\":{\"code\":-32600,\"message\":\"Bad request\"}}\n";
    assert_eq!(
        parse_sse_content(stream).unwrap_err(),
        "A2A SSE error: {\"code\":-32600,\"message\":\"Bad request\"}"
    );
}

#[test]
fn lines_that_say_nothing_are_skipped() {
    for line in ["", "event: message", ": comment", "data: ", "data: [DONE]", "data: {\"x\":1}"] {
        assert!(matches!(process_sse_line(line), SseLineOutcome::Skip), "{line}");
    }
    assert!(matches!(
        process_sse_line("data: {\"result\":{\"id\":\"t\"}}"),
        SseLineOutcome::Skip
    ));
    assert!(matches!(
        process_sse_line(sse_result_line("t", "failed", false).as_str()),
        SseLineOutcome::Task(_, false)
    ));
}

/// Feed chunks and take the steps, as a caller with a connection does.
fn read_chunks(chunks: &[&[u8]]) -> Result<A2aTask, String> {
    let mut reader = SseReader::new();
    for chunk in chunks {
        reader.feed(chunk);
        loop {
            match reader.step() {
                SseStep::NeedMore => break,
                SseStep::Progress(_) => {}
                SseStep::Final(task) => return Ok(task),
                SseStep::Failed(text) => return Err(text),
            }
        }
    }
    reader.finish()
}

#[test]
fn chunk_boundaries_do_not_matter() {
    let mut stream = sse_result_line("t-\u{e9}\u{4e2d}", "working", false);
    stream.push_str("\r\n: keep-alive\r\n");
    stream.push_str(&sse_result_line("t-\u{e9}\u{4e2d}", "completed", true));
    let bytes = stream.as_bytes();
    let whole = read_chunks(&[bytes]).unwrap();
    assert_eq!(whole.id, "t-\u{e9}\u{4e2d}");
    for cut in 0..bytes.len() {
        let halves = read_chunks(&[&bytes[..cut], &bytes[cut..]]).unwrap();
        assert_eq!(write_task(&halves), write_task(&whole));
    }
    let singles: Vec<&[u8]> = bytes.chunks(1).collect();
    assert_eq!(write_task(&read_chunks(&singles).unwrap()), write_task(&whole));
}

#[test]
fn bytes_that_are_no_text_are_replaced() {
    let mut bytes: Vec<u8> = b"data: {\"result\":{\"id\":\"a".to_vec();
    bytes.push(0xff);
    bytes.extend_from_slice(b"b\",\"status\":\"working\",\"final\":true}}\n");
    let task = read_chunks(&[bytes.as_slice()]).unwrap();
    assert_eq!(task.id, "a\u{fffd}b");
}

#[test]
fn requests_have_the_protocol_form() {
    let params = r#"{"message":{"role":"user","parts":[{"type":"text","text":"hi"}]},"sessionId":null}"#;
    assert_eq!(
        send_task_request("hi", None),
        parsed(&format!(
            "{{\"jsonrpc\":\"2.0\",\"id\":1,\"method\":\"tasks/send\",\"params\":{params}}}"
        ))
    );
    let subscribed = send_task_streaming_request("hi", Some("s-9"));
    assert_eq!(subscribed["method"], "tasks/sendSubscribe");
    assert_eq!(subscribed["params"]["sessionId"], "s-9");
    assert_eq!(
        get_task_request("t-1"),
        parsed(r#"{"jsonrpc":"2.0","id":1,"method":"tasks/get","params":{"id":"t-1"}}"#)
    );
}

#[test]
fn replies_are_told_apart() {
    let ok = parsed(r#"{"result":{"id":"t","status":"completed"},"error":{"code":1}}"#);
    assert_eq!(read_send_task_reply(&ok, "").unwrap().status, A2aTaskStatus::Completed);
    assert_eq!(read_get_task_reply(&ok, "").unwrap().id, "t");
    let refused = parsed(r#"{"error":{"code":1}}"#);
    assert_eq!(read_send_task_reply(&refused, "").unwrap_err(), "A2A error: {\"code\":1}");
    assert_eq!(read_get_task_reply(&refused, "").unwrap_err(), "Empty A2A response");
    assert_eq!(read_send_task_reply(&parsed("{}"), "").unwrap_err(), "Empty A2A response");
    let odd = parsed(r#"{"result":{"status":"working"}}"#);
    assert_eq!(
        read_send_task_reply(&odd, "missing field `id`").unwrap_err(),
        "Invalid A2A task response: missing field `id`"
    );
    assert_eq!(
        read_get_task_reply(&odd, "missing field `id`").unwrap_err(),
        "Invalid A2A task: missing field `id`"
    );
}

#[test]
fn card_url_and_deadline() {
    assert_eq!(
        agent_card_url("https://example.com//"),
        "https://example.com/.well-known/agent.json"
    );
    assert_eq!(SYNC_STREAMING_DEADLINE, 300);
    assert_eq!(deadline_error(), "A2A request exceeded 300s timeout");
}

#[test]
fn only_agents_with_a_card_are_discovered() {
    let manifest = AgentManifest { name: "n".to_string(), ..Default::default() };
    let card: AgentCard = build_agent_card(&manifest, "https://b");
    let found = discovered_agents(vec![
        ("a".to_string(), Err("down".to_string())),
        ("b".to_string(), Ok(card)),
    ]);
    assert_eq!(found.len(), 1);
    assert_eq!(found[0].0, "b");
    assert_eq!(found[0].1.url, "https://b/a2a");
}

#[test]
fn an_error_ends_the_stream_whatever_stands_beside_it() {
    let working = sse_result_line("t", "working", false);
    let beside_null = format!(
        "{working}data: {{\"result\":null,\"error\":{{\"message\":\"x\"}}}}\n"
    );
    assert_eq!(parse_sse_content(&beside_null).unwrap_err(), "A2A SSE error: {\"message\":\"x\"}");
    let beside_unreadable = format!("{working}data: {{\"result\":7,\"error\":\"x\"}}\n");
    assert_eq!(parse_sse_content(&beside_unreadable).unwrap_err(), "A2A SSE error: \"x\"");
    let alone = format!("{working}data: {{\"error\":\"x\"}}\n{working}");
    assert_eq!(parse_sse_content(&alone).unwrap_err(), "A2A SSE error: \"x\"");
}

#[test]
fn a_null_error_beside_a_result_is_none() {
    let quiet = "data: {\"error\":null,\"result\":{\"id\":\"t\",\"status\":\"working\",\"messages\":[],\"artifacts\":[]}}\n";
    assert_eq!(parse_sse_content(quiet).unwrap().id, "t");
    assert_eq!(parse_sse_content("data: {\"error\":null}\n").unwrap_err(), "A2A SSE error: null");
}
