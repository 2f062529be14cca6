//! Laws of what the operations on tasks, streams and cards give back.

use crate::a2a::card::{build_agent_card, card_of, AgentCard};
use crate::a2a::encode::{plain_task, task_reads_back, task_tree};
use crate::a2a::lifecycle_laws::{
    card_tells_the_agent, completed_task_has_response, failed_task_has_error,
    full_store_loses_oldest_ended, has_ended, skill_tells_the_tool, status_alone_is_updated,
};
use crate::a2a::rpc::{agent_card_url, read_get_task_reply, read_send_task_reply};
use crate::a2a::sse::{
    parse_sse_content, process_sse_line, run, SseLineOutcome, SseReader, SseStep,
};
use crate::a2a::sse_laws::last_task_is_last_seen;
use crate::a2a::store::{
    distinct_ids, insert_then_get, lookup, position, position_finds, A2aTaskStore,
};
use crate::a2a::stream_laws::{
    carries, data_line_shows_task, final_event_is_the_result, one_line, stream_goes_by_lines,
};
use crate::a2a::types::{
    artifact_views, A2aArtifact, A2aMessage, A2aTask, A2aTaskStatus, A2aTaskStatusWrapper,
    StatusView, TaskView,
};
use crate::agent::AgentManifest;
use crate::json::{json_model, json_parsed, member, JsonTree};
use crate::text::{has_suffix, parts_are_stripped, texts};
use vstd::prelude::*;
use vstd::utf8::encode_utf8;

verus! {

/// A data line whose JSON object has a written task under `result`, with the member `final` beside
/// the task's own, and no error, is read as that task, with every message and artifact, and as
/// the last one exactly if the mark is `true`.
pub proof fn line_is_read_as_its_task(
    line: &str,
    json: Seq<char>,
    event: JsonTree,
    task: TaskView,
    mark: JsonTree,
    outcome: SseLineOutcome,
)
    requires
        call_ensures(process_sse_line, (line,), outcome),
        carries(line@, json),
        json_parsed(json) == Some(event),
        member(event, "result"@) == Some(
            JsonTree::Object(task_tree(task)->Object_0.insert("final"@, mark)),
        ),
        member(event, "error"@) is None || member(event, "error"@) == Some(JsonTree::Null),
        plain_task(task),
    ensures
        outcome matches SseLineOutcome::Task(got, last) && {
            &&& got.id@ == task.id
            &&& got@.session_id == task.session_id
            &&& got@.status == task.status
            &&& got@.messages == task.messages
            &&& got@.artifacts == task.artifacts
            &&& got.artifacts@.len() == task.artifacts.len()
            &&& last == (mark == JsonTree::Bool(true))
        },
{
    data_line_shows_task(line@, json, event, task, mark);
    if let SseLineOutcome::Task(got, _) = outcome {
        assert(got@.artifacts.len() == got.artifacts@.len());
    }
}

/// A body of events in which the first line is a final event for a task is read as that task,
/// whatever follows.
pub proof fn content_is_read_as_final_task(
    content: &str,
    line: Seq<char>,
    rest: Seq<char>,
    json: Seq<char>,
    event: JsonTree,
    task: TaskView,
    r: Result<A2aTask, String>,
)
    requires
        call_ensures(parse_sse_content, (content,), r),
        content@ == line + seq!['\n'] + rest,
        one_line(line),
        carries(line, json),
        json_parsed(json) == Some(event),
        member(event, "result"@) == Some(
            JsonTree::Object(task_tree(task)->Object_0.insert("final"@, JsonTree::Bool(true))),
        ),
        member(event, "error"@) is None || member(event, "error"@) == Some(JsonTree::Null),
        plain_task(task),
    ensures
        r matches Ok(got) && got@ == task,
{
    final_event_is_the_result(line, json, event, task, rest, None);
}

/// A reader that has the bytes of a final event for a task shows that task, with all of its
/// artifacts, as the final one.
pub proof fn reader_shows_final_task(
    reader: &mut SseReader,
    line: Seq<char>,
    rest: Seq<u8>,
    json: Seq<char>,
    event: JsonTree,
    task: TaskView,
    step: SseStep,
)
    requires
        call_ensures(SseReader::step, (reader,), step),
        old(reader).bytes() == encode_utf8(line) + (seq![10u8] + rest),
        one_line(line),
        carries(line, json),
        json_parsed(json) == Some(event),
        member(event, "result"@) == Some(
            JsonTree::Object(task_tree(task)->Object_0.insert("final"@, JsonTree::Bool(true))),
        ),
        member(event, "error"@) is None || member(event, "error"@) == Some(JsonTree::Null),
        plain_task(task),
    ensures
        step matches SseStep::Final(got) && got@ == task,
{
    data_line_shows_task(line, json, event, task, JsonTree::Bool(true));
    stream_goes_by_lines(line, rest, old(reader).last());
    let seen = old(reader).run().seen;
    assert(seen == seq![task]);
    assert(seen[0] == task);
    match step {
        SseStep::Final(got) => {
            assert(seq![got@][0] == got@);
        },
        SseStep::Progress(got) => {
            let more = final(reader).run().seen;
            assert((seq![got@] + more).len() == 1 + more.len());
            last_task_is_last_seen(final(reader).bytes(), final(reader).last());
        },
        _ => {
            assert(seen.len() == 1);
        },
    }
}

/// A reader that has the bytes of an event for a task which is not the final one shows that task
/// and goes on behind it.
pub proof fn reader_shows_progress(
    reader: &mut SseReader,
    line: Seq<char>,
    rest: Seq<u8>,
    json: Seq<char>,
    event: JsonTree,
    task: TaskView,
    mark: JsonTree,
    step: SseStep,
)
    requires
        call_ensures(SseReader::step, (reader,), step),
        old(reader).bytes() == encode_utf8(line) + (seq![10u8] + rest),
        one_line(line),
        carries(line, json),
        json_parsed(json) == Some(event),
        member(event, "result"@) == Some(
            JsonTree::Object(task_tree(task)->Object_0.insert("final"@, mark)),
        ),
        mark != JsonTree::Bool(true),
        member(event, "error"@) is None || member(event, "error"@) == Some(JsonTree::Null),
        plain_task(task),
    ensures
        step matches SseStep::Progress(got) && got@ == task,
        final(reader).last() == Some(task),
{
    data_line_shows_task(line, json, event, task, mark);
    stream_goes_by_lines(line, rest, old(reader).last());
    let more = run(rest, Some(task));
    last_task_is_last_seen(rest, Some(task));
    let seen = old(reader).run().seen;
    assert(seen == seq![task] + more.seen);
    assert(seen[0] == task && seen.len() == 1 + more.seen.len());
    match step {
        SseStep::Progress(got) => {
            assert((seq![got@] + final(reader).run().seen)[0] == got@);
        },
        SseStep::Final(got) => {
            assert(seq![got@].len() == 1);
        },
        _ => {},
    }
}

/// A task that was inserted is got by its id, as it was.
pub proof fn inserted_task_is_got(
    before: &mut A2aTaskStore,
    after: &A2aTaskStore,
    task: A2aTask,
    id: &str,
    got: Option<A2aTask>,
)
    requires
        distinct_ids(old(before).tasks()),
        call_ensures(A2aTaskStore::insert, (before, task), ()),
        after.tasks() == final(before).tasks(),
        id@ == task.id@,
        call_ensures(A2aTaskStore::get, (after, id), got),
    ensures
        got matches Some(t) && t@ == task@,
{
    insert_then_get(old(before).tasks(), old(before).max(), task@);
}

/// A full store has as many tasks after an insertion as before: the oldest one that has ended is
/// gone, or the oldest if none has; the new one is the last.
pub proof fn insertion_makes_room(store: &mut A2aTaskStore, task: A2aTask, ended: int)
    requires
        distinct_ids(old(store).tasks()),
        call_ensures(A2aTaskStore::insert, (store, task), ()),
        old(store).tasks().len() >= old(store).max(),
        old(store).tasks().len() > 0,
        forall|i: int|
            0 <= i < old(store).tasks().len() ==> (#[trigger] old(store).tasks()[i]).id != task.id@,
        0 <= ended < old(store).tasks().len(),
        has_ended(old(store).tasks()[ended]),
        forall|i: int| 0 <= i < ended ==> !has_ended(#[trigger] old(store).tasks()[i]),
    ensures
        final(store).tasks() == old(store).tasks().remove(ended).push(task@),
        final(store).tasks().len() == old(store).tasks().len(),
{
    full_store_loses_oldest_ended(old(store).tasks(), old(store).max(), task@, ended);
}

/// The task with an id stands at its position.
proof fn lemma_at(tasks: Seq<TaskView>, id: Seq<char>)
    requires
        lookup(tasks, id) is Some,
    ensures
        0 <= position(tasks, id) < tasks.len(),
        tasks[position(tasks, id)].id == id,
        lookup(tasks, id) == Some(tasks[position(tasks, id)]),
{
    position_finds(tasks, id);
}

/// A task that was completed has the response behind its messages, the artifacts behind its own,
/// and is completed; it keeps its id and its session.
pub proof fn completion_is_got(
    before: &mut A2aTaskStore,
    after: &A2aTaskStore,
    id: &str,
    response: A2aMessage,
    artifacts: Vec<A2aArtifact>,
    was: TaskView,
    got: Option<A2aTask>,
)
    requires
        distinct_ids(old(before).tasks()),
        lookup(old(before).tasks(), id@) == Some(was),
        call_ensures(A2aTaskStore::complete, (before, id, response, artifacts), ()),
        after.tasks() == final(before).tasks(),
        call_ensures(A2aTaskStore::get, (after, id), got),
    ensures
        got matches Some(t) && {
            &&& t.id@ == id@
            &&& t@.session_id == was.session_id
            &&& t@.messages == was.messages.push(response@)
            &&& t@.artifacts.len() == was.artifacts.len() + artifacts@.len()
            &&& forall|i: int|
                0 <= i < was.artifacts.len() ==> #[trigger] t@.artifacts[i] == was.artifacts[i]
            &&& forall|i: int|
                0 <= i < artifacts@.len() ==> t@.artifacts[was.artifacts.len() + i]
                    == #[trigger] artifacts@[i]@
            &&& t@.status == StatusView::Enum(A2aTaskStatus::Completed)
        },
{
    let tasks = old(before).tasks();
    lemma_at(tasks, id@);
    completed_task_has_response(
        tasks,
        position(tasks, id@),
        response@,
        artifact_views(artifacts@),
        id@,
    );
    let all = artifact_views(artifacts@);
    assert(all.len() == artifacts@.len());
    let t = got->0;
    assert(t@.artifacts == was.artifacts + all);
    assert forall|i: int| 0 <= i < artifacts@.len() implies t@.artifacts[was.artifacts.len() + i]
        == #[trigger] artifacts@[i]@ by {
        assert((was.artifacts + all)[was.artifacts.len() + i] == all[i]);
    }
}

/// A task that failed has the error behind its messages and is failed; it keeps the rest.
pub proof fn failure_is_got(
    before: &mut A2aTaskStore,
    after: &A2aTaskStore,
    id: &str,
    error: A2aMessage,
    was: TaskView,
    got: Option<A2aTask>,
)
    requires
        distinct_ids(old(before).tasks()),
        lookup(old(before).tasks(), id@) == Some(was),
        call_ensures(A2aTaskStore::fail, (before, id, error), ()),
        after.tasks() == final(before).tasks(),
        call_ensures(A2aTaskStore::get, (after, id), got),
    ensures
        got matches Some(t) && {
            &&& t.id@ == id@
            &&& t@.session_id == was.session_id
            &&& t@.messages == was.messages.push(error@)
            &&& t@.artifacts == was.artifacts
            &&& t@.status == StatusView::Enum(A2aTaskStatus::Failed)
        },
{
    let tasks = old(before).tasks();
    lemma_at(tasks, id@);
    failed_task_has_error(tasks, position(tasks, id@), error@, id@);
}

/// Cancelling a task that exists says so, and the task is cancelled and keeps the rest; of one that
/// does not exist it says that, and nothing changes.
pub proof fn cancellation_is_got(
    before: &mut A2aTaskStore,
    after: &A2aTaskStore,
    id: &str,
    was: TaskView,
    r: bool,
    got: Option<A2aTask>,
)
    requires
        distinct_ids(old(before).tasks()),
        call_ensures(A2aTaskStore::cancel, (before, id), r),
        after.tasks() == final(before).tasks(),
        call_ensures(A2aTaskStore::get, (after, id), got),
    ensures
        lookup(old(before).tasks(), id@) == Some(was) ==> r && (got matches Some(t) && {
            &&& t.id@ == id@
            &&& t@.session_id == was.session_id
            &&& t@.messages == was.messages
            &&& t@.artifacts == was.artifacts
            &&& t@.status == StatusView::Enum(A2aTaskStatus::Cancelled)
        }),
        lookup(old(before).tasks(), id@) is None ==> !r && got is None && final(before).tasks()
            == old(before).tasks(),
{
    let tasks = old(before).tasks();
    if lookup(tasks, id@) == Some(was) {
        lemma_at(tasks, id@);
        status_alone_is_updated(tasks, position(tasks, id@), A2aTaskStatus::Cancelled, id@);
    }
}

/// A status that was set is the status of the task.
pub proof fn set_status_is_got(
    before: &mut A2aTaskStore,
    after: &A2aTaskStore,
    id: &str,
    status: A2aTaskStatus,
    was: TaskView,
    r: bool,
    got: Option<A2aTask>,
)
    requires
        distinct_ids(old(before).tasks()),
        lookup(old(before).tasks(), id@) == Some(was),
        call_ensures(A2aTaskStore::update_status, (before, id, status), r),
        after.tasks() == final(before).tasks(),
        call_ensures(A2aTaskStore::get, (after, id), got),
    ensures
        r,
        got matches Some(t) && t@ == (TaskView { status: StatusView::Enum(status), ..was }),
{
    let tasks = old(before).tasks();
    lemma_at(tasks, id@);
    status_alone_is_updated(tasks, position(tasks, id@), status, id@);
}

/// The reply to a sent task, or to a question for a task, with a written task under `result` is
/// read as that task.
pub proof fn replies_are_read_as_their_task(
    body: &serde_json::Value,
    complaint: &str,
    task: TaskView,
    sent: Result<A2aTask, String>,
    asked: Result<A2aTask, String>,
)
    requires
        call_ensures(read_send_task_reply, (body, complaint), sent),
        call_ensures(read_get_task_reply, (body, complaint), asked),
        member(json_model(*body), "result"@) == Some(task_tree(task)),
        plain_task(task),
    ensures
        sent matches Ok(t) && t@ == task,
        asked matches Ok(t) && t@ == task,
{
    task_reads_back(task);
}

/// The card of an agent has the name and the description of its manifest, its address under the
/// base, and a skill for each of its tools.
pub proof fn card_is_made_of_manifest(manifest: &AgentManifest, base_url: &str, card: AgentCard)
    requires
        call_ensures(build_agent_card, (manifest, base_url), card),
    ensures
        card.name@ == manifest.name@,
        card.description@ == manifest.description@,
        card.url@ == base_url@ + "/a2a"@,
        card.version@ == "0.1.0"@,
        card.capabilities.streaming,
        !card.capabilities.push_notifications,
        card.capabilities.state_transition_history,
        card.skills@.len() == manifest.capabilities.tools@.len(),
        forall|i: int|
            0 <= i < card.skills@.len() ==> (#[trigger] card.skills@[i]).id@
                == manifest.capabilities.tools@[i]@ && card.skills@[i].description@
                == "Can use the "@ + manifest.capabilities.tools@[i]@ + " tool"@,
{
    let tools = texts(manifest.capabilities.tools@);
    card_tells_the_agent(manifest.name@, manifest.description@, tools, base_url@);
    assert(card@.skills.len() == card.skills@.len());
    assert forall|i: int| 0 <= i < card.skills@.len() implies (#[trigger] card.skills@[i]).id@
        == manifest.capabilities.tools@[i]@ && card.skills@[i].description@ == "Can use the "@
        + manifest.capabilities.tools@[i]@ + " tool"@ by {
        assert(card@.skills[i] == card.skills@[i]@);
        skill_tells_the_tool(tools, i);
        assert(card_of(
            manifest.name@,
            manifest.description@,
            tools,
            base_url@,
        ).skills[i] == card@.skills[i]);
    }
}

/// The card of an agent is served at a well-known place under its address, with or without a slash
/// at the end of the address.
pub proof fn card_is_at_well_known_place(base: Seq<char>, url: &str, place: String)
    requires
        call_ensures(agent_card_url, (url,), place),
        !has_suffix(base, "/"@),
        url@ == base || url@ == base + "/"@,
    ensures
        place@ == base + "/.well-known/agent.json"@,
{
    reveal_strlit("/");
    assert("/"@.len() == 1);
    parts_are_stripped(base, "/"@);
}

/// A status equals the state that it was made of and no other; in either form it equals its state
/// alone, and a copy of it is in the same state and form.
pub proof fn status_equals_its_state(
    state: A2aTaskStatus,
    made: A2aTaskStatusWrapper,
    status: &A2aTaskStatusWrapper,
    asked: &A2aTaskStatus,
    copy: A2aTaskStatusWrapper,
    equal: bool,
)
    requires
        call_ensures(
            <A2aTaskStatusWrapper as From<A2aTaskStatus>>::from,
            (state,),
            made,
        ),
        call_ensures(A2aTaskStatusWrapper::clone, (status,), copy),
        call_ensures(
            <A2aTaskStatusWrapper as PartialEq<A2aTaskStatus>>::eq,
            (status, asked),
            equal,
        ),
    ensures
        made matches A2aTaskStatusWrapper::Enum(s) && s == state,
        *status == made ==> equal == (state == *asked),
        status matches A2aTaskStatusWrapper::Object { state: s, .. } ==> equal == (s == *asked),
        status matches A2aTaskStatusWrapper::Enum(s) ==> equal == (s == *asked),
        status matches A2aTaskStatusWrapper::Object { state: s, .. } ==> (
        copy matches A2aTaskStatusWrapper::Object { state: c, .. } && c == s),
        status matches A2aTaskStatusWrapper::Enum(s) ==> (
        copy matches A2aTaskStatusWrapper::Enum(c) && c == s),
{
    assert(copy@ == status@);
}

} // verus!
