//! Laws of what the lines of a stream of server-sent events show, and what the stream results in.

use crate::a2a::encode::{
    artifact_tree, message_tree, plain_task, status_tree, task_reads_back, task_tree,
};
use crate::a2a::sse::{
    content_result, line_end, line_feed, line_outcome, payload, run, OutcomeView, StreamState,
};
use crate::a2a::sse_laws::{
    lemma_line_bytes, lemma_line_end_bytes, lemma_line_feed_concat, lemma_returns_say_nothing,
};
use crate::a2a::types::{ArtifactView, MessageView, TaskView};
use crate::a2a::wire::task_of;
use crate::a2a::wire_laws::{marked_task_reads_back, text_or_null};
use crate::json::{entries_map, json_parsed, json_written, member, no_other_member, JsonTree};
use crate::text::{is_blank, trimming_strips_white_space, white_space};
use vstd::prelude::*;
use vstd::utf8::encode_utf8;

verus! {

/// A line is a data line for the text `json`: `data: `, and the text with nothing but white space
/// around it.
pub open spec fn carries(line: Seq<char>, json: Seq<char>) -> bool {
    &&& json.len() > 0
    &&& !white_space(json[0])
    &&& !white_space(json.last())
    &&& exists|before: Seq<char>, after: Seq<char>|
        is_blank(before) && is_blank(after) && line == "data: "@ + #[trigger] (before + json
            + after)
}

/// A data line has its text as payload.
proof fn lemma_payload(line: Seq<char>, json: Seq<char>)
    requires
        carries(line, json),
    ensures
        line.len() >= 6,
        line.take(6) == "data: "@,
        payload(line) == json,
{
    let (before, after) = choose|before: Seq<char>, after: Seq<char>|
        is_blank(before) && is_blank(after) && line == "data: "@ + #[trigger] (before + json
            + after);
    reveal_strlit("data: ");
    let prefix = "data: "@;
    assert(prefix.len() == 6);
    assert(line.take(6) =~= prefix);
    assert(line.skip(6) =~= before + json + after);
    trimming_strips_white_space(before, json, after);
}

/// A task comes through a data line as it was written: a line whose JSON object has the written
/// task under `result`, with the member `final` beside the task's own, and no error, shows exactly
/// that task, and is the last one exactly if the mark is `true`.
pub proof fn data_line_shows_task(
    line: Seq<char>,
    json: Seq<char>,
    event: JsonTree,
    task: TaskView,
    mark: JsonTree,
)
    requires
        carries(line, json),
        json_parsed(json) == Some(event),
        member(event, "result"@) == Some(
            JsonTree::Object(task_tree(task)->Object_0.insert("final"@, mark)),
        ),
        member(event, "error"@) is None || member(event, "error"@) == Some(JsonTree::Null),
        plain_task(task),
    ensures
        line_outcome(line) matches OutcomeView::Task(shown, last) && {
            &&& shown.id == task.id
            &&& shown.session_id == task.session_id
            &&& shown.status == task.status
            &&& shown.messages == task.messages
            &&& shown.artifacts == task.artifacts
            &&& last == (mark == JsonTree::Bool(true))
        },
        line_outcome(line) == OutcomeView::Task(task, mark == JsonTree::Bool(true)),
{
    lemma_payload(line, json);
    reveal_strlit("data: ");
    lemma_final_is_no_field();
    marked_task_reads_back(task, "final"@, mark);
}

/// `final` is no field of a task.
proof fn lemma_final_is_no_field()
    ensures
        "final"@ != "id"@,
        "final"@ != "sessionId"@,
        "final"@ != "status"@,
        "final"@ != "messages"@,
        "final"@ != "artifacts"@,
{
    reveal_strlit("final");
    reveal_strlit("id");
    reveal_strlit("sessionId");
    reveal_strlit("status");
    reveal_strlit("messages");
    reveal_strlit("artifacts");
    assert("final"@.len() == 5 && "id"@.len() == 2 && "sessionId"@.len() == 9);
    assert("status"@.len() == 6 && "messages"@.len() == 8 && "artifacts"@.len() == 9);
}

/// A task without a mark is shown as it was written, and is not the last one.
pub proof fn unmarked_line_shows_task(
    line: Seq<char>,
    json: Seq<char>,
    event: JsonTree,
    task: TaskView,
)
    requires
        carries(line, json),
        json_parsed(json) == Some(event),
        member(event, "result"@) == Some(task_tree(task)),
        member(event, "error"@) is None || member(event, "error"@) == Some(JsonTree::Null),
        plain_task(task),
    ensures
        line_outcome(line) == OutcomeView::Task(task, false),
{
    lemma_payload(line, json);
    reveal_strlit("data: ");
    task_reads_back(task);
    lemma_final_is_no_field();
    let e = seq![
        ("id"@, JsonTree::Text(task.id)),
        ("sessionId"@, text_or_null(task.session_id)),
        ("status"@, status_tree(task.status)),
        (
            "messages"@,
            JsonTree::Array(
                task.messages.map_values(|m: MessageView| message_tree(m)),
            ),
        ),
        (
            "artifacts"@,
            JsonTree::Array(
                task.artifacts.map_values(|a: ArtifactView| artifact_tree(a)),
            ),
        ),
    ];
    assert(task_tree(task) == JsonTree::Object(entries_map(e)));
    no_other_member(e, "final"@);
}

/// A data line with an error ends the stream with it, whatever stands beside the error; the
/// error is told as it was written. Only a `null` beside a result is no error.
pub proof fn error_line_tells_error(
    line: Seq<char>,
    json: Seq<char>,
    event: JsonTree,
    error: JsonTree,
)
    requires
        carries(line, json),
        json_parsed(json) == Some(event),
        member(event, "error"@) == Some(error),
        error != JsonTree::Null || member(event, "result"@) is None,
    ensures
        line_outcome(line) == OutcomeView::Error("A2A SSE error: "@ + json_written(error)),
{
    lemma_payload(line, json);
    reveal_strlit("data: ");
}

/// A line that is no data line, or has nothing to read behind `data: `, shows nothing; nor does a
/// data line without a task and without an error.
pub proof fn other_lines_show_nothing(line: Seq<char>, json: Seq<char>)
    ensures
        !(line.len() >= 6 && line.take(6) == "data: "@) ==> line_outcome(line)
            == OutcomeView::Skip,
        line.len() >= 6 && line.take(6) == "data: "@ && is_blank(line.skip(6)) ==> line_outcome(
            line,
        ) == OutcomeView::Skip,
        carries(line, json) && json_parsed(json) is None ==> line_outcome(line)
            == OutcomeView::Skip,
        carries(line, json) && (json_parsed(json) matches Some(event) && member(
            event,
            "error"@,
        ) is None && (match member(event, "result"@) {
            Some(result) => task_of(result) is None,
            None => true,
        })) ==> line_outcome(line) == OutcomeView::Skip,
{
    reveal_strlit("data: ");
    assert("data: "@.len() == 6);
    if line.len() >= 6 && line.take(6) == "data: "@ && is_blank(line.skip(6)) {
        let none = Seq::<char>::empty();
        trimming_strips_white_space(line.skip(6), none, none);
        assert(line.skip(6) + none + none =~= line.skip(6));
    }
    if carries(line, json) {
        lemma_payload(line, json);
    }
}

/// A line without a line feed in it.
pub open spec fn one_line(line: Seq<char>) -> bool {
    forall|i: int| 0 <= i < line.len() ==> #[trigger] line[i] != '\n'
}

/// The first line of a text ends at its first line feed.
proof fn lemma_first_line(line: Seq<char>, rest: Seq<char>)
    requires
        one_line(line),
    ensures
        line_end(line) == line.len(),
        line_end(line + seq!['\n'] + rest) == line.len(),
    decreases line.len(),
{
    let text = line + seq!['\n'] + rest;
    if line.len() > 0 {
        assert(text[0] == line[0]);
        assert(text.skip(1) =~= line.skip(1) + seq!['\n'] + rest);
        assert forall|i: int| 0 <= i < line.skip(1).len() implies #[trigger] line.skip(1)[i]
            != '\n' by {
            assert(line.skip(1)[i] == line[i + 1]);
        }
        lemma_first_line(line.skip(1), rest);
    } else {
        assert(text[0] == '\n');
    }
}

/// A text is read line by line: a final task and an error end it at once, another task becomes
/// the last one, and what shows nothing is passed over.
pub proof fn content_goes_by_lines(line: Seq<char>, rest: Seq<char>, last: Option<TaskView>)
    requires
        one_line(line),
    ensures
        ({
            let result = content_result(line + seq!['\n'] + rest, last);
            match line_outcome(line) {
                OutcomeView::Task(task, true) => result == Ok::<TaskView, Seq<char>>(task),
                OutcomeView::Task(task, false) => result == content_result(rest, Some(task)),
                OutcomeView::Error(text) => result == Err::<TaskView, Seq<char>>(text),
                OutcomeView::Skip => result == content_result(rest, last),
            }
        }),
{
    lemma_first_line(line, rest);
    let text = line + seq!['\n'] + rest;
    assert(text.take(line.len() as int) =~= line);
    assert(text.skip(line.len() as int + 1) =~= rest);
    lemma_returns_say_nothing(line);
}

/// A text that ends without a final event results in the last task, and in an error if there was
/// none; what stands behind the last line feed does not matter.
pub proof fn content_ends_with_last_task(line: Seq<char>, last: Option<TaskView>)
    requires
        one_line(line),
    ensures
        content_result(line, last) == match last {
            Some(task) => Ok::<TaskView, Seq<char>>(task),
            None => Err("SSE stream ended without a final event"@),
        },
{
    lemma_first_line(line, Seq::empty());
}

/// A stream is read line by line, as a text is; it shows every task, in order.
pub proof fn stream_goes_by_lines(line: Seq<char>, rest: Seq<u8>, last: Option<TaskView>)
    requires
        one_line(line),
    ensures
        ({
            let all = run(encode_utf8(line) + (seq![10u8] + rest), last);
            match line_outcome(line) {
                OutcomeView::Task(task, true) => all.seen == seq![task] && all.state
                    == StreamState::Done(task),
                OutcomeView::Task(task, false) => all.seen == seq![task] + run(
                    rest,
                    Some(task),
                ).seen && all.state == run(rest, Some(task)).state,
                OutcomeView::Error(text) => all.seen.len() == 0 && all.state
                    == StreamState::Failed(text),
                OutcomeView::Skip => all == run(rest, last),
            }
        }),
{
    let bytes = encode_utf8(line);
    let tail = seq![10u8] + rest;
    lemma_first_line(line, Seq::empty());
    lemma_line_end_bytes(line);
    lemma_line_feed_concat(bytes, tail);
    assert(tail[0] == 10);
    assert(line_feed(tail) == 0);
    let at = bytes.len() as int;
    assert((bytes + tail).take(at) =~= bytes);
    assert((bytes + tail).skip(at + 1) =~= rest);
    lemma_line_bytes(line);
    lemma_returns_say_nothing(line);
}

/// A final event for a task ends a text with that task, with all of its messages and artifacts,
/// whatever was shown before and whatever follows.
pub proof fn final_event_is_the_result(
    line: Seq<char>,
    json: Seq<char>,
    event: JsonTree,
    task: TaskView,
    rest: Seq<char>,
    last: Option<TaskView>,
)
    requires
        one_line(line),
        carries(line, json),
        json_parsed(json) == Some(event),
        member(event, "result"@) == Some(
            JsonTree::Object(task_tree(task)->Object_0.insert("final"@, JsonTree::Bool(true))),
        ),
        member(event, "error"@) is None || member(event, "error"@) == Some(JsonTree::Null),
        plain_task(task),
    ensures
        content_result(line + seq!['\n'] + rest, last) == Ok::<TaskView, Seq<char>>(task),
        run(encode_utf8(line) + (seq![10u8] + encode_utf8(rest)), last).state
            == StreamState::Done(task),
{
    data_line_shows_task(line, json, event, task, JsonTree::Bool(true));
    content_goes_by_lines(line, rest, last);
    stream_goes_by_lines(line, encode_utf8(rest), last);
}

} // verus!
