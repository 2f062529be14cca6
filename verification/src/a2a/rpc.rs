//! Requests to external agents, and what their replies say.

use crate::a2a::card::AgentCard;
use crate::a2a::encode::{message_reads_back, message_tree, write_message};
use crate::a2a::sse::result_view;
use crate::a2a::types::{part_views, A2aMessage, A2aPart, A2aTask, MessageView, PartView, TaskView};
use crate::a2a::wire::{message_of, read_task, task_of};
use crate::json::{
    entries_map, entry_models, json_member, json_model, json_null, json_of_object, json_of_text,
    json_of_u64, json_written, maybe_text_tree, member, number_tree, write_json, JsonTree,
};
use crate::text::{decimal, decimal_text, trim_end_matches, without_trailing};
use vstd::prelude::*;

verus! {

/// Wall-clock deadline, in seconds, applied to the synchronous SSE streaming path. It matches
/// the "blocks until complete, up to 300 s" of the `a2a_send` tool.
pub const SYNC_STREAMING_DEADLINE: u64 = 300;

/// The JSON-RPC envelope of a request.
pub open spec fn request_tree(method: Seq<char>, params: JsonTree) -> JsonTree {
    JsonTree::Object(
        entries_map(
            seq![
                ("jsonrpc"@, JsonTree::Text("2.0"@)),
                ("id"@, number_tree(1)),
                ("method"@, JsonTree::Text(method)),
                ("params"@, params),
            ],
        ),
    )
}

/// What a task is sent with: the text as a message of the user, and the session.
pub open spec fn send_params(message: Seq<char>, session_id: Option<Seq<char>>) -> JsonTree {
    JsonTree::Object(
        entries_map(
            seq![
                (
                    "message"@,
                    message_tree(
                        MessageView {
                            role: "user"@,
                            parts: seq![PartView::Text { text: message }],
                        },
                    ),
                ),
                ("sessionId"@, maybe_text_tree(session_id)),
            ],
        ),
    )
}

/// The characters of an optional borrowed string.
pub open spec fn borrowed_text(text: Option<&str>) -> Option<Seq<char>> {
    match text {
        Some(s) => Some(s@),
        None => None,
    }
}

/// The JSON-RPC envelope of a request.
fn request(method: &str, params: serde_json::Value) -> (r: serde_json::Value)
    ensures
        json_model(r) == request_tree(method@, json_model(params)),
{
    let mut entries: Vec<(String, serde_json::Value)> = Vec::new();
    entries.push(("jsonrpc".to_string(), json_of_text("2.0".to_string())));
    entries.push(("id".to_string(), json_of_u64(1)));
    entries.push(("method".to_string(), json_of_text(method.to_string())));
    entries.push(("params".to_string(), params));
    assert(entry_models(entries@) =~= seq![
        ("jsonrpc"@, JsonTree::Text("2.0"@)),
        ("id"@, number_tree(1)),
        ("method"@, JsonTree::Text(method@)),
        ("params"@, json_model(params)),
    ]);
    json_of_object(entries)
}

/// What a task is sent with.
fn task_params(message: &str, session_id: Option<&str>) -> (r: serde_json::Value)
    ensures
        json_model(r) == send_params(message@, borrowed_text(session_id)),
{
    let mut parts: Vec<A2aPart> = Vec::new();
    parts.push(A2aPart::Text { text: message.to_string() });
    assert(part_views(parts@) =~= seq![PartView::Text { text: message@ }]);
    let body = A2aMessage { role: "user".to_string(), parts };
    let ghost sent = MessageView {
        role: "user"@,
        parts: seq![PartView::Text { text: message@ }],
    };
    assert(body@ == sent);
    assert(message_tree(body@) == message_tree(sent));
    let session: serde_json::Value = match session_id {
        Some(s) => json_of_text(s.to_string()),
        None => json_null(),
    };
    let mut entries: Vec<(String, serde_json::Value)> = Vec::new();
    entries.push(("message".to_string(), write_message(&body)));
    entries.push(("sessionId".to_string(), session));
    assert(entry_models(entries@) =~= seq![
        ("message"@, message_tree(sent)),
        ("sessionId"@, maybe_text_tree(borrowed_text(session_id))),
    ]);
    json_of_object(entries)
}

/// The request that sends a task and waits for its result.
pub fn send_task_request(message: &str, session_id: Option<&str>) -> (r: serde_json::Value)
    ensures
        json_model(r) == request_tree(
            "tasks/send"@,
            send_params(message@, borrowed_text(session_id)),
        ),
{
    request("tasks/send", task_params(message, session_id))
}

/// The request that sends a task and subscribes to its events.
pub fn send_task_streaming_request(message: &str, session_id: Option<&str>) -> (r:
    serde_json::Value)
    ensures
        json_model(r) == request_tree(
            "tasks/sendSubscribe"@,
            send_params(message@, borrowed_text(session_id)),
        ),
{
    request("tasks/sendSubscribe", task_params(message, session_id))
}

/// The request for the status of a task.
pub fn get_task_request(task_id: &str) -> (r: serde_json::Value)
    ensures
        json_model(r) == request_tree(
            "tasks/get"@,
            JsonTree::Object(entries_map(seq![("id"@, JsonTree::Text(task_id@))])),
        ),
{
    let mut entries: Vec<(String, serde_json::Value)> = Vec::new();
    entries.push(("id".to_string(), json_of_text(task_id.to_string())));
    assert(entry_models(entries@) =~= seq![("id"@, JsonTree::Text(task_id@))]);
    request("tasks/get", json_of_object(entries))
}

/// What the reply to a sent task says: the task under `result`, and if that is none, what the
/// decoder complains of; else the error under `error`; else that there is nothing in it.
pub open spec fn send_reply(body: JsonTree, complaint: Seq<char>) -> Result<TaskView, Seq<char>> {
    match member(body, "result"@) {
        Some(result) => match task_of(result) {
            Some(task) => Ok(task),
            None => Err("Invalid A2A task response: "@ + complaint),
        },
        None => match member(body, "error"@) {
            Some(error) => Err("A2A error: "@ + json_written(error)),
            None => Err("Empty A2A response"@),
        },
    }
}

/// What the reply to a status request says: the task under `result`, and if that is none, what
/// the decoder complains of; else that there is nothing in it.
pub open spec fn get_reply(body: JsonTree, complaint: Seq<char>) -> Result<TaskView, Seq<char>> {
    match member(body, "result"@) {
        Some(result) => match task_of(result) {
            Some(task) => Ok(task),
            None => Err("Invalid A2A task: "@ + complaint),
        },
        None => Err("Empty A2A response"@),
    }
}

/// The task in the reply to a sent task. `complaint` is what the decoder says of a result that is
/// no task.
pub fn read_send_task_reply(body: &serde_json::Value, complaint: &str) -> (r: Result<
    A2aTask,
    String,
>)
    ensures
        result_view(r) == send_reply(json_model(*body), complaint@),
{
    match json_member(body, "result") {
        Some(result) => match read_task(result) {
            Some(task) => Ok(task),
            None => {
                let mut text: String = "Invalid A2A task response: ".to_string();
                text.append(complaint);
                Err(text)
            },
        },
        None => match json_member(body, "error") {
            Some(error) => {
                let mut text: String = "A2A error: ".to_string();
                text.append(write_json(error).as_str());
                Err(text)
            },
            None => Err("Empty A2A response".to_string()),
        },
    }
}

/// The task in the reply to a status request. `complaint` is what the decoder says of a result
/// that is no task.
pub fn read_get_task_reply(body: &serde_json::Value, complaint: &str) -> (r: Result<
    A2aTask,
    String,
>)
    ensures
        result_view(r) == get_reply(json_model(*body), complaint@),
{
    match json_member(body, "result") {
        Some(result) => match read_task(result) {
            Some(task) => Ok(task),
            None => {
                let mut text: String = "Invalid A2A task: ".to_string();
                text.append(complaint);
                Err(text)
            },
        },
        None => Err("Empty A2A response".to_string()),
    }
}

/// Where an agent serves its card.
pub fn agent_card_url(url: &str) -> (r: String)
    ensures
        r@ == without_trailing(url@, "/"@) + "/.well-known/agent.json"@,
{
    let mut r: String = trim_end_matches(url, "/").to_string();
    r.append("/.well-known/agent.json");
    r
}

/// The error of a stream that ran longer than the deadline.
pub fn deadline_error() -> (r: String)
    ensures
        r@ == "A2A request exceeded "@ + decimal(SYNC_STREAMING_DEADLINE as nat) + "s timeout"@,
{
    let mut r: String = "A2A request exceeded ".to_string();
    r.append(decimal_text(SYNC_STREAMING_DEADLINE).as_str());
    r.append("s timeout");
    r
}

/// The agents that were found, of all that were asked, in their order.
pub open spec fn found(outcomes: Seq<(String, Result<AgentCard, String>)>) -> Seq<
    (String, AgentCard),
>
    decreases outcomes.len(),
{
    if outcomes.len() == 0 {
        Seq::empty()
    } else {
        let rest = found(outcomes.drop_last());
        match outcomes.last().1 {
            Ok(card) => rest.push((outcomes.last().0, card)),
            Err(_) => rest,
        }
    }
}

/// The agents that were found, with their cards; those that were not are left out.
pub fn discovered_agents(outcomes: Vec<(String, Result<AgentCard, String>)>) -> (r: Vec<
    (String, AgentCard),
>)
    ensures
        r@ == found(outcomes@),
{
    let ghost all = outcomes@;
    let mut out: Vec<(String, AgentCard)> = Vec::new();
    assert(all.take(0) =~= Seq::empty());
    for outcome in it: outcomes
        invariant
            it.seq() == all,
            out@ == found(all.take(it.index() as int)),
    {
        assert(all.take(it.index() + 1).drop_last() =~= all.take(it.index() as int));
        match outcome.1 {
            Ok(card) => out.push((outcome.0, card)),
            Err(_) => {},
        }
    }
    assert(all.take(all.len() as int) =~= all);
    out
}

/// What a sent task says is what its receiver reads: the method, the text as the one part of a
/// message of the user, and the session.
pub proof fn sent_task_is_read(
    method: Seq<char>,
    message: Seq<char>,
    session_id: Option<Seq<char>>,
)
    ensures
        ({
            let params = send_params(message, session_id);
            &&& member(request_tree(method, params), "method"@) == Some(JsonTree::Text(method))
            &&& member(request_tree(method, params), "params"@) == Some(params)
            &&& member(params, "sessionId"@) == Some(maybe_text_tree(session_id))
            &&& member(params, "message"@) matches Some(tree) && message_of(tree) == Some(
                MessageView { role: "user"@, parts: seq![PartView::Text { text: message }] },
            )
        }),
{
    reveal_strlit("method");
    reveal_strlit("params");
    reveal_strlit("message");
    reveal_strlit("sessionId");
    assert("method"@[0] == 'm' && "params"@[0] == 'p');
    assert("message"@.len() == 7 && "sessionId"@.len() == 9);
    let params = send_params(message, session_id);
    let sent = MessageView { role: "user"@, parts: seq![PartView::Text { text: message }] };
    message_reads_back(sent);
    let body = seq![
        ("message"@, message_tree(sent)),
        ("sessionId"@, maybe_text_tree(session_id)),
    ];
    assert(body.drop_last() =~= seq![("message"@, message_tree(sent))]);
    reveal_with_fuel(entries_map, 3);
    let envelope = seq![
        ("jsonrpc"@, JsonTree::Text("2.0"@)),
        ("id"@, number_tree(1)),
        ("method"@, JsonTree::Text(method)),
        ("params"@, params),
    ];
    assert(envelope.drop_last() =~= seq![
        ("jsonrpc"@, JsonTree::Text("2.0"@)),
        ("id"@, number_tree(1)),
        ("method"@, JsonTree::Text(method)),
    ]);
}

} // verus!
