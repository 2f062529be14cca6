//! Laws of the life of a task, stated on its fields: how it is stored, advanced and evicted, how it
//! is sent and what its replies say; and of the card of an agent.

use crate::a2a::card::{card_of, tool_skill, AgentCard, AgentSkill};
use crate::a2a::encode::{message_tree, plain_task, task_reads_back, task_tree};
use crate::a2a::rpc::{
    borrowed_text, found, get_reply, get_task_request, request_tree, send_params, send_reply,
    send_task_request, send_task_streaming_request, SYNC_STREAMING_DEADLINE,
};
use crate::a2a::store::{
    advanced, change_is_local, changed, distinct_ids, inserted, is_known, lookup, oldest_finished,
    oldest_finished_finds, position, position_finds, victim, with_room, with_status,
};
use crate::a2a::types::{
    A2aTaskStatus, ArtifactView, MessageView, PartView, StatusView, TaskView,
};
use crate::a2a::wire::task_of;
use crate::a2a::wire_laws::{message_is_written_by_fields, part_is_written_by_fields, text_or_null};
use crate::json::{
    entries_map, entry_is_member, json_model, json_written, maybe_text_tree, member, number_tree,
    JsonTree,
};
use crate::text::texts;
use vstd::prelude::*;

verus! {

/// A stored task is found by its id, and an id that no task has finds none.
pub proof fn stored_task_is_found(tasks: Seq<TaskView>, i: int, id: Seq<char>)
    requires
        distinct_ids(tasks),
        0 <= i < tasks.len(),
    ensures
        lookup(tasks, tasks[i].id) == Some(tasks[i]),
        (forall|k: int| 0 <= k < tasks.len() ==> (#[trigger] tasks[k]).id != id) ==> lookup(
            tasks,
            id,
        ) is None,
{
    position_finds(tasks, tasks[i].id);
    position_finds(tasks, id);
    let at = position(tasks, tasks[i].id);
    if at < i {
        assert(tasks[at].id != tasks[i].id);
    }
}

/// Completing a task adds the response behind its messages and the artifacts behind its own, and
/// its status becomes completed; it keeps its id and its session, and no other task changes.
pub proof fn completed_task_has_response(
    tasks: Seq<TaskView>,
    i: int,
    response: MessageView,
    artifacts: Seq<ArtifactView>,
    other: Seq<char>,
)
    requires
        distinct_ids(tasks),
        0 <= i < tasks.len(),
    ensures
        ({
            let task = tasks[i];
            let done = advanced(task, response, artifacts, A2aTaskStatus::Completed);
            let now = changed(tasks, task.id, done);
            &&& lookup(now, task.id) matches Some(t) && {
                &&& t.id == task.id
                &&& t.session_id == task.session_id
                &&& t.messages == task.messages.push(response)
                &&& t.artifacts == task.artifacts + artifacts
                &&& t.status == StatusView::Enum(A2aTaskStatus::Completed)
            }
            &&& other != task.id ==> lookup(now, other) == lookup(tasks, other)
            &&& now.len() == tasks.len()
        }),
{
    let done = advanced(tasks[i], response, artifacts, A2aTaskStatus::Completed);
    position_finds(tasks, tasks[i].id);
    stored_task_is_found(tasks, i, other);
    change_is_local(tasks, tasks[i].id, done, tasks[i].id);
    change_is_local(tasks, tasks[i].id, done, other);
}

/// Failing a task adds the error behind its messages, and its status becomes failed; it keeps its
/// id, its session and its artifacts, and no other task changes.
pub proof fn failed_task_has_error(
    tasks: Seq<TaskView>,
    i: int,
    error: MessageView,
    other: Seq<char>,
)
    requires
        distinct_ids(tasks),
        0 <= i < tasks.len(),
    ensures
        ({
            let task = tasks[i];
            let done = advanced(task, error, Seq::empty(), A2aTaskStatus::Failed);
            let now = changed(tasks, task.id, done);
            &&& lookup(now, task.id) matches Some(t) && {
                &&& t.id == task.id
                &&& t.session_id == task.session_id
                &&& t.messages == task.messages.push(error)
                &&& t.artifacts == task.artifacts
                &&& t.status == StatusView::Enum(A2aTaskStatus::Failed)
            }
            &&& other != task.id ==> lookup(now, other) == lookup(tasks, other)
        }),
{
    let done = advanced(tasks[i], error, Seq::empty(), A2aTaskStatus::Failed);
    stored_task_is_found(tasks, i, other);
    change_is_local(tasks, tasks[i].id, done, tasks[i].id);
    change_is_local(tasks, tasks[i].id, done, other);
    assert(tasks[i].artifacts + Seq::<ArtifactView>::empty() =~= tasks[i].artifacts);
}

/// Updating the status of a task, to cancelled or to any other, changes its status and nothing
/// else; no other task changes.
pub proof fn status_alone_is_updated(
    tasks: Seq<TaskView>,
    i: int,
    status: A2aTaskStatus,
    other: Seq<char>,
)
    requires
        distinct_ids(tasks),
        0 <= i < tasks.len(),
    ensures
        ({
            let task = tasks[i];
            let now = changed(tasks, task.id, with_status(task, status));
            &&& lookup(now, task.id) matches Some(t) && {
                &&& t.id == task.id
                &&& t.session_id == task.session_id
                &&& t.messages == task.messages
                &&& t.artifacts == task.artifacts
                &&& t.status == StatusView::Enum(status)
                &&& t.status.state() == status
            }
            &&& other != task.id ==> lookup(now, other) == lookup(tasks, other)
        }),
{
    stored_task_is_found(tasks, i, other);
    change_is_local(tasks, tasks[i].id, with_status(tasks[i], status), tasks[i].id);
    change_is_local(tasks, tasks[i].id, with_status(tasks[i], status), other);
}

/// Whether a task has come to an end.
pub open spec fn has_ended(task: TaskView) -> bool {
    ||| task.status.state() == A2aTaskStatus::Completed
    ||| task.status.state() == A2aTaskStatus::Failed
    ||| task.status.state() == A2aTaskStatus::Cancelled
}

/// A new task comes last. As long as there is room nothing goes; a full store loses the oldest
/// task that has ended, and the oldest one if none has.
pub proof fn full_store_loses_oldest_ended(
    tasks: Seq<TaskView>,
    max: nat,
    task: TaskView,
    ended: int,
)
    requires
        distinct_ids(tasks),
        forall|i: int| 0 <= i < tasks.len() ==> (#[trigger] tasks[i]).id != task.id,
        0 <= ended <= tasks.len(),
        ended < tasks.len() ==> has_ended(tasks[ended]),
        forall|i: int| 0 <= i < ended ==> !has_ended(#[trigger] tasks[i]),
    ensures
        inserted(tasks, max, task) == if tasks.len() < max || tasks.len() == 0 {
            tasks.push(task)
        } else if ended < tasks.len() {
            tasks.remove(ended).push(task)
        } else {
            tasks.remove(0).push(task)
        },
{
    oldest_finished_finds(tasks);
    let first = oldest_finished(tasks);
    if first < ended {
        assert(!has_ended(tasks[first]));
    }
    if ended < first {
        assert(!tasks[ended].status.state().finished());
    }
    assert(first == ended);
    let kept = with_room(tasks, max);
    position_finds(kept, task.id);
    if is_known(kept, task.id) {
        let at = position(kept, task.id);
        if tasks.len() >= max && tasks.len() > 0 {
            let gone = victim(tasks);
            if at < gone {
                assert(kept[at] == tasks[at]);
            } else {
                assert(kept[at] == tasks[at + 1]);
            }
        }
    }
}

/// A task that comes again takes the place of the one with its id, and comes last; below capacity
/// nothing else changes.
pub proof fn returning_task_is_replaced(tasks: Seq<TaskView>, max: nat, task: TaskView, i: int)
    requires
        distinct_ids(tasks),
        tasks.len() < max,
        0 <= i < tasks.len(),
        tasks[i].id == task.id,
    ensures
        inserted(tasks, max, task) == tasks.remove(i).push(task),
{
    position_finds(tasks, task.id);
    let at = position(tasks, task.id);
    if at < i {
        assert(tasks[at].id != tasks[i].id);
    }
    if i < at {
        assert(tasks[i].id != task.id);
    }
}

/// A request is JSON-RPC 2.0 with the id 1, and has its method and its parameters.
pub proof fn request_is_json_rpc(method: Seq<char>, params: JsonTree)
    ensures
        member(request_tree(method, params), "jsonrpc"@) == Some(JsonTree::Text("2.0"@)),
        member(request_tree(method, params), "id"@) matches Some(
            JsonTree::Number { unsigned: Some(n), .. },
        ) && n == 1,
        member(request_tree(method, params), "method"@) == Some(JsonTree::Text(method)),
        member(request_tree(method, params), "params"@) == Some(params),
{
    reveal_strlit("jsonrpc");
    reveal_strlit("id");
    reveal_strlit("method");
    reveal_strlit("params");
    assert("jsonrpc"@.len() == 7 && "id"@.len() == 2 && "method"@.len() == 6);
    assert("params"@.len() == 6 && "method"@[0] == 'm' && "params"@[0] == 'p');
    let e = seq![
        ("jsonrpc"@, JsonTree::Text("2.0"@)),
        ("id"@, number_tree(1)),
        ("method"@, JsonTree::Text(method)),
        ("params"@, params),
    ];
    entry_is_member(e, 0);
    entry_is_member(e, 1);
    entry_is_member(e, 2);
    entry_is_member(e, 3);
}

/// A task is sent as a message of the user with one part, the text, and with the session.
pub proof fn text_is_sent_as_user_message(message: Seq<char>, session_id: Option<Seq<char>>)
    ensures
        ({
            let params = send_params(message, session_id);
            &&& member(params, "sessionId"@) == Some(text_or_null(session_id))
            &&& member(params, "message"@) matches Some(body) && {
                &&& member(body, "role"@) == Some(JsonTree::Text("user"@))
                &&& member(body, "parts"@) matches Some(JsonTree::Array(parts)) && {
                    &&& parts.len() == 1
                    &&& member(parts[0], "type"@) == Some(JsonTree::Text("text"@))
                    &&& member(parts[0], "text"@) == Some(JsonTree::Text(message))
                }
            }
        }),
{
    let part = PartView::Text { text: message };
    let sent = MessageView { role: "user"@, parts: seq![part] };
    message_is_written_by_fields(sent);
    part_is_written_by_fields(part);
    reveal_strlit("message");
    reveal_strlit("sessionId");
    assert("message"@.len() == 7 && "sessionId"@.len() == 9);
    let e = seq![
        ("message"@, message_tree(sent)),
        ("sessionId"@, maybe_text_tree(session_id)),
    ];
    entry_is_member(e, 0);
    entry_is_member(e, 1);
}

/// A reply with a written task under `result` gives that task, as it was written.
pub proof fn reply_gives_task(body: JsonTree, task: TaskView, complaint: Seq<char>)
    requires
        member(body, "result"@) == Some(task_tree(task)),
        plain_task(task),
    ensures
        send_reply(body, complaint) == Ok::<TaskView, Seq<char>>(task),
        get_reply(body, complaint) == Ok::<TaskView, Seq<char>>(task),
{
    task_reads_back(task);
}

/// A reply without a task tells why: its result is none, for which the decoder has a complaint; or
/// it has an error instead, which is told as it was written; or it is empty.
pub proof fn reply_without_task_is_an_error(body: JsonTree, complaint: Seq<char>)
    requires
        match member(body, "result"@) {
            Some(result) => task_of(result) is None,
            None => true,
        },
    ensures
        send_reply(body, complaint) == Err::<TaskView, Seq<char>>(
            if member(body, "result"@) is Some {
                "Invalid A2A task response: "@ + complaint
            } else {
                match member(body, "error"@) {
                    Some(error) => "A2A error: "@ + json_written(error),
                    None => "Empty A2A response"@,
                }
            },
        ),
        get_reply(body, complaint) == Err::<TaskView, Seq<char>>(
            if member(body, "result"@) is Some {
                "Invalid A2A task: "@ + complaint
            } else {
                "Empty A2A response"@
            },
        ),
{
}

/// Every agent that answered is found, under the address that was asked, in order; those that did
/// not answer are left out.
pub proof fn answering_agents_are_found(
    outcomes: Seq<(String, Result<AgentCard, String>)>,
    url: String,
    card: AgentCard,
    error: String,
)
    ensures
        found(outcomes.push((url, Ok(card)))) == found(outcomes).push((url, card)),
        found(outcomes.push((url, Err(error)))) == found(outcomes),
        found(Seq::empty()).len() == 0,
{
    assert(outcomes.push((url, Ok(card))).drop_last() =~= outcomes);
    assert(outcomes.push((url, Err(error))).drop_last() =~= outcomes);
}

/// The card of an agent tells its name and description, where it is served, what it can do, and a
/// skill for each of its tools, in order.
pub proof fn card_tells_the_agent(
    name: Seq<char>,
    description: Seq<char>,
    tools: Seq<Seq<char>>,
    base_url: Seq<char>,
)
    ensures
        ({
            let card = card_of(name, description, tools, base_url);
            &&& card.name == name
            &&& card.description == description
            &&& card.url == base_url + "/a2a"@
            &&& card.version == "0.1.0"@
            &&& card.capabilities.streaming
            &&& !card.capabilities.push_notifications
            &&& card.capabilities.state_transition_history
            &&& card.default_input_modes == seq!["text"@]
            &&& card.default_output_modes == seq!["text"@]
            &&& card.skills.len() == tools.len()
            &&& forall|i: int| 0 <= i < tools.len() ==> (#[trigger] card.skills[i]).id == tools[i]
        }),
{
}

/// The skill of a tool has the tool as its id, the tool with blanks for underscores as its name,
/// a sentence about the tool, the tag `tool` and no examples.
pub proof fn skill_tells_the_tool(tools: Seq<Seq<char>>, i: int)
    requires
        0 <= i < tools.len(),
    ensures
        forall|name: Seq<char>, description: Seq<char>, url: Seq<char>|
            {
                let skill = (#[trigger] card_of(name, description, tools, url)).skills[i];
                &&& skill.id == tools[i]
                &&& skill.name.len() == tools[i].len()
                &&& forall|k: int|
                    0 <= k < tools[i].len() ==> #[trigger] skill.name[k] == (if tools[i][k]
                        == '_' {
                        ' '
                    } else {
                        tools[i][k]
                    })
                &&& skill.description == "Can use the "@ + tools[i] + " tool"@
                &&& skill.tags == seq!["tool"@]
                &&& skill.examples.len() == 0
            },
{
    assert forall|name: Seq<char>, description: Seq<char>, url: Seq<char>| true implies (
    #[trigger] card_of(name, description, tools, url)).skills[i] == tool_skill(tools[i]) by {}
}

/// What is stated of a card and of a skill speaks of their fields.
pub proof fn cards_show_their_fields(card: AgentCard, skill: AgentSkill)
    ensures
        card@.name == card.name@,
        card@.description == card.description@,
        card@.url == card.url@,
        card@.version == card.version@,
        card@.capabilities == card.capabilities,
        card@.skills.len() == card.skills@.len(),
        forall|i: int|
            0 <= i < card.skills@.len() ==> #[trigger] card@.skills[i] == card.skills@[i]@,
        card@.default_input_modes == texts(card.default_input_modes@),
        card@.default_output_modes == texts(card.default_output_modes@),
        skill@.id == skill.id@,
        skill@.name == skill.name@,
        skill@.description == skill.description@,
        skill@.tags == texts(skill.tags@),
        skill@.examples == texts(skill.examples@),
{
}

/// A stream is waited for five minutes; and an optional text is sent as what it is.
pub proof fn stream_has_five_minutes(text: Option<&str>)
    ensures
        SYNC_STREAMING_DEADLINE == 5 * 60,
        match text {
            Some(s) => borrowed_text(text) == Some(s@),
            None => borrowed_text(text) is None,
        },
{
}

/// The three requests: a task is sent by `tasks/send`, or by `tasks/sendSubscribe` where its events
/// are followed, with the text and the session; a task is asked for by `tasks/get`, with its id.
pub proof fn requests_have_their_methods(
    message: &str,
    session_id: Option<&str>,
    task_id: &str,
    sent: serde_json::Value,
    followed: serde_json::Value,
    asked: serde_json::Value,
)
    requires
        call_ensures(send_task_request, (message, session_id), sent),
        call_ensures(send_task_streaming_request, (message, session_id), followed),
        call_ensures(get_task_request, (task_id,), asked),
    ensures
        member(json_model(sent), "method"@) == Some(JsonTree::Text("tasks/send"@)),
        member(json_model(followed), "method"@) == Some(JsonTree::Text("tasks/sendSubscribe"@)),
        member(json_model(asked), "method"@) == Some(JsonTree::Text("tasks/get"@)),
        member(json_model(sent), "params"@) == member(json_model(followed), "params"@),
        member(json_model(sent), "params"@) matches Some(params) && {
            &&& member(params, "sessionId"@) == Some(text_or_null(borrowed_text(session_id)))
            &&& member(params, "message"@) matches Some(body) && member(body, "parts"@) matches Some(
                JsonTree::Array(parts),
            ) && parts.len() == 1 && member(parts[0], "text"@) == Some(JsonTree::Text(message@))
        },
        member(json_model(asked), "params"@) matches Some(params) && member(params, "id"@) == Some(
            JsonTree::Text(task_id@),
        ),
{
    let params = send_params(message@, borrowed_text(session_id));
    request_is_json_rpc("tasks/send"@, params);
    request_is_json_rpc("tasks/sendSubscribe"@, params);
    text_is_sent_as_user_message(message@, borrowed_text(session_id));
    let e = seq![("id"@, JsonTree::Text(task_id@))];
    request_is_json_rpc("tasks/get"@, JsonTree::Object(entries_map(e)));
    entry_is_member(e, 0);
}

} // verus!
