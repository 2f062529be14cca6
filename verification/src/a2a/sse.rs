//! Server-sent events: what a line of a stream says, and what the whole stream results in.

use crate::a2a::types::{optional_task, A2aTask, TaskView};
use crate::a2a::wire::{read_task, task_of};
use crate::json::{
    json_bool, json_is_null, json_member, json_model, json_parsed, json_written, member, parse_json,
    write_json, JsonTree,
};
use crate::text::{chars_of, has_prefix, strip_prefix, trim, trim_end_matches, trimmed, without_trailing};
use vstd::prelude::*;
use vstd::utf8::{decode_utf8, valid_utf8};

verus! {

/// Outcome of processing a single `data:` SSE line.
#[derive(Debug)]
pub enum SseLineOutcome {
    /// The line yielded a task update. `bool` is `true` when this is the final event.
    Task(A2aTask, bool),
    /// The line contained an error object: the stream should be aborted.
    Error(String),
    /// The line was empty, non-`data:`, or contained non-JSON payload (e.g. `[DONE]`).
    Skip,
}

/// What an outcome holds.
pub enum OutcomeView {
    Task(TaskView, bool),
    Error(Seq<char>),
    Skip,
}

impl View for SseLineOutcome {
    type V = OutcomeView;

    open spec fn view(&self) -> OutcomeView {
        match *self {
            SseLineOutcome::Task(task, last) => OutcomeView::Task(task@, last),
            SseLineOutcome::Error(text) => OutcomeView::Error(text@),
            SseLineOutcome::Skip => OutcomeView::Skip,
        }
    }
}

/// What stands behind `data: `, without the white space around it.
pub open spec fn payload(line: Seq<char>) -> Seq<char> {
    trimmed(line.skip("data: "@.len() as int))
}

/// Whether an event carries the mark of the last one.
pub open spec fn marked_final(result: JsonTree) -> bool {
    member(result, "final"@) == Some(JsonTree::Bool(true))
}

/// What the task under `result` says; nothing if there is none.
pub open spec fn task_outcome(event: JsonTree) -> OutcomeView {
    match member(event, "result"@) {
        Some(result) => match task_of(result) {
            Some(task) => OutcomeView::Task(task, marked_final(result)),
            None => OutcomeView::Skip,
        },
        None => OutcomeView::Skip,
    }
}

/// What an event says: an error under `error`, else a task under `result`. A `null` under `error`
/// beside a `result` is no error.
pub open spec fn event_outcome(event: JsonTree) -> OutcomeView {
    match member(event, "error"@) {
        Some(error) if error != JsonTree::Null || member(event, "result"@) is None =>
            OutcomeView::Error("A2A SSE error: "@ + json_written(error)),
        _ => task_outcome(event),
    }
}

/// What a line says.
pub open spec fn line_outcome(line: Seq<char>) -> OutcomeView {
    if has_prefix(line, "data: "@) && payload(line).len() > 0 {
        match json_parsed(payload(line)) {
            Some(event) => event_outcome(event),
            None => OutcomeView::Skip,
        }
    } else {
        OutcomeView::Skip
    }
}

/// The task in a parsed event.
fn process_sse_task(parsed: &serde_json::Value) -> (r: SseLineOutcome)
    ensures
        r@ == task_outcome(json_model(*parsed)),
{
    match json_member(parsed, "result") {
        Some(result) => match read_task(result) {
            Some(task) => {
                let last: bool = match json_member(result, "final") {
                    Some(mark) => match json_bool(mark) {
                        Some(b) => b,
                        None => false,
                    },
                    None => false,
                };
                SseLineOutcome::Task(task, last)
            },
            None => SseLineOutcome::Skip,
        },
        None => SseLineOutcome::Skip,
    }
}

/// What a parsed event says.
pub fn process_sse_event(parsed: &serde_json::Value) -> (r: SseLineOutcome)
    ensures
        r@ == event_outcome(json_model(*parsed)),
{
    match json_member(parsed, "error") {
        Some(error) => {
            let alone: bool = match json_member(parsed, "result") {
                Some(_) => false,
                None => true,
            };
            if alone || !json_is_null(error) {
                let mut text: String = "A2A SSE error: ".to_string();
                text.append(write_json(error).as_str());
                SseLineOutcome::Error(text)
            } else {
                process_sse_task(parsed)
            }
        },
        None => process_sse_task(parsed),
    }
}

/// Process a single raw SSE line and return what was found.
///
/// Accepts the full line (including the `data: ` prefix, if present).
pub fn process_sse_line(line: &str) -> (r: SseLineOutcome)
    ensures
        r@ == line_outcome(line@),
{
    match strip_prefix(line, "data: ") {
        Some(rest) => {
            let data: &str = trim(rest);
            if data.is_empty() {
                SseLineOutcome::Skip
            } else {
                match parse_json(data) {
                    Some(parsed) => process_sse_event(&parsed),
                    None => SseLineOutcome::Skip,
                }
            }
        },
        None => SseLineOutcome::Skip,
    }
}

/// Where a stream stands.
pub enum StreamState {
    /// It goes on: the bytes of the unfinished line, and the last task seen.
    Open { rest: Seq<u8>, last: Option<TaskView> },
    /// The final event came.
    Done(TaskView),
    /// An error event came.
    Failed(Seq<char>),
}

/// Where a stream stands, and the tasks that it showed, in their order.
pub struct StreamRun {
    pub seen: Seq<TaskView>,
    pub state: StreamState,
}

/// The position of the first line feed, or the length if there is none.
pub open spec fn line_feed(bytes: Seq<u8>) -> int
    decreases bytes.len(),
{
    if bytes.len() == 0 || bytes[0] == 10 {
        0
    } else {
        1 + line_feed(bytes.skip(1))
    }
}

/// A line without a carriage return at its end.
pub open spec fn without_return(line: Seq<u8>) -> Seq<u8> {
    if line.len() > 0 && line.last() == 13 {
        line.drop_last()
    } else {
        line
    }
}

/// The text that `String::from_utf8_lossy` makes of bytes that are not UTF-8.
pub uninterp spec fn repaired(bytes: Seq<u8>) -> Seq<char>;

/// The text of a line.
pub open spec fn line_text(bytes: Seq<u8>) -> Seq<char> {
    if valid_utf8(bytes) {
        decode_utf8(bytes)
    } else {
        repaired(bytes)
    }
}

/// What the lines in `bytes` do to a stream whose last task is `last`: each line that shows a
/// task makes it the last one; the first final event and the first error event end the stream.
pub open spec fn run(bytes: Seq<u8>, last: Option<TaskView>) -> StreamRun
    decreases bytes.len(),
{
    let end = line_feed(bytes);
    if end < 0 || end >= bytes.len() {
        StreamRun { seen: Seq::empty(), state: StreamState::Open { rest: bytes, last } }
    } else {
        let rest = bytes.skip(end + 1);
        match line_outcome(line_text(without_return(bytes.take(end)))) {
            OutcomeView::Skip => run(rest, last),
            OutcomeView::Error(text) => StreamRun {
                seen: Seq::empty(),
                state: StreamState::Failed(text),
            },
            OutcomeView::Task(task, true) => StreamRun {
                seen: seq![task],
                state: StreamState::Done(task),
            },
            OutcomeView::Task(task, false) => {
                let more = run(rest, Some(task));
                StreamRun { seen: seq![task] + more.seen, state: more.state }
            },
        }
    }
}

/// What a stream results in if it ends here.
pub open spec fn stream_result(state: StreamState) -> Result<TaskView, Seq<char>> {
    match state {
        StreamState::Done(task) => Ok(task),
        StreamState::Failed(text) => Err(text),
        StreamState::Open { last: Some(task), .. } => Ok(task),
        StreamState::Open { last: None, .. } => Err("SSE stream ended without a final event"@),
    }
}

/// What a result holds.
pub open spec fn result_view(result: Result<A2aTask, String>) -> Result<TaskView, Seq<char>> {
    match result {
        Ok(task) => Ok(task@),
        Err(text) => Err(text@),
    }
}

/// `String::from_utf8_lossy`: the characters that the bytes encode if they are UTF-8. Of other
/// bytes no more is stated than that the text depends on the bytes alone.
#[verifier::external_body]
fn text_of_bytes(bytes: &[u8]) -> (r: String)
    ensures
        valid_utf8(bytes@) ==> r@ == decode_utf8(bytes@),
        !valid_utf8(bytes@) ==> r@ == repaired(bytes@),
{
    String::from_utf8_lossy(bytes).into_owned()
}

/// What a stream does next.
#[derive(Debug)]
pub enum SseStep {
    /// It shows a task, and goes on.
    Progress(A2aTask),
    /// It shows its final task.
    Final(A2aTask),
    /// It ends with an error.
    Failed(String),
    /// More bytes are needed.
    NeedMore,
}

/// Reads a stream of server-sent events that arrives in chunks.
///
/// Raw bytes are kept, not text, because a chunk may end in the middle of a multi-byte
/// character; only complete lines are decoded.
#[derive(Debug)]
pub struct SseReader {
    /// The bytes that no complete line has taken yet.
    bytes: Vec<u8>,
    /// The last task seen.
    last_task: Option<A2aTask>,
}

impl SseReader {
    /// The bytes that no complete line has taken yet.
    pub closed spec fn bytes(&self) -> Seq<u8> {
        self.bytes@
    }

    /// The last task seen.
    pub closed spec fn last(&self) -> Option<TaskView> {
        optional_task(self.last_task)
    }

    /// What the bytes that are there result in.
    pub open spec fn run(&self) -> StreamRun {
        run(self.bytes(), self.last())
    }

    /// A reader at the start of a stream.
    pub fn new() -> (r: Self)
        ensures
            r.bytes() == Seq::<u8>::empty(),
            r.last() is None,
    {
        SseReader { bytes: Vec::new(), last_task: None }
    }

    /// Take in the next chunk.
    pub fn feed(&mut self, chunk: &[u8])
        ensures
            final(self).bytes() == old(self).bytes() + chunk@,
            final(self).last() == old(self).last(),
    {
        self.bytes.extend_from_slice(chunk);
        assert(self.bytes@ =~= old(self).bytes@ + chunk@);
    }

    /// Process complete lines up to the next one that shows a task or an error.
    pub fn step(&mut self) -> (r: SseStep)
        ensures
            match r {
                SseStep::NeedMore => {
                    &&& old(self).run().seen == Seq::<TaskView>::empty()
                    &&& old(self).run().state == StreamState::Open {
                        rest: final(self).bytes(),
                        last: final(self).last(),
                    }
                    &&& final(self).last() == old(self).last()
                    &&& final(self).run() == old(self).run()
                },
                SseStep::Failed(text) => {
                    &&& old(self).run().seen == Seq::<TaskView>::empty()
                    &&& old(self).run().state == StreamState::Failed(text@)
                },
                SseStep::Final(task) => {
                    &&& old(self).run().seen == seq![task@]
                    &&& old(self).run().state == StreamState::Done(task@)
                    &&& final(self).last() == Some(task@)
                },
                SseStep::Progress(task) => {
                    &&& final(self).last() == Some(task@)
                    &&& final(self).bytes().len() < old(self).bytes().len()
                    &&& old(self).run().seen == seq![task@] + final(self).run().seen
                    &&& old(self).run().state == final(self).run().state
                },
            },
    {
        loop
            invariant
                self.run() == old(self).run(),
                self.last() == old(self).last(),
                self.bytes().len() <= old(self).bytes().len(),
            decreases self.bytes().len(),
        {
            let end: usize = find_line_feed(&self.bytes);
            if end == self.bytes.len() {
                return SseStep::NeedMore;
            }
            let ghost before = self.bytes@;
            let tail: Vec<u8> = self.bytes.split_off(end + 1);
            let mut line: Vec<u8> = Vec::new();
            std::mem::swap(&mut line, &mut self.bytes);
            self.bytes = tail;
            assert(self.bytes@ =~= before.skip(end + 1));
            line.truncate(end);
            assert(line@ =~= before.take(end as int));
            if end > 0 && line[end - 1] == 13 {
                line.truncate(end - 1);
                assert(line@ =~= before.take(end as int).drop_last());
            }
            assert(line@ == without_return(before.take(end as int)));
            let text: String = text_of_bytes(line.as_slice());
            match process_sse_line(text.as_str()) {
                SseLineOutcome::Task(task, last) => {
                    self.last_task = Some(task.clone());
                    if last {
                        return SseStep::Final(task);
                    } else {
                        return SseStep::Progress(task);
                    }
                },
                SseLineOutcome::Error(text) => {
                    return SseStep::Failed(text);
                },
                SseLineOutcome::Skip => {},
            }
        }
    }

    /// What the stream results in when it ends without a final event: the last task, or an
    /// error if there was none.
    pub fn finish(self) -> (r: Result<A2aTask, String>)
        ensures
            result_view(r) == stream_result(
                StreamState::Open { rest: self.bytes(), last: self.last() },
            ),
    {
        match self.last_task {
            Some(task) => Ok(task),
            None => Err("SSE stream ended without a final event".to_string()),
        }
    }
}

/// The position of the first line feed, or the length if there is none.
fn find_line_feed(bytes: &Vec<u8>) -> (r: usize)
    ensures
        r == line_feed(bytes@),
        r <= bytes@.len(),
{
    assert(bytes@.skip(0) =~= bytes@);
    let mut i: usize = 0;
    while i < bytes.len() && bytes[i] != 10
        invariant
            i <= bytes.len(),
            line_feed(bytes@) == i + line_feed(bytes@.skip(i as int)),
        decreases bytes.len() - i,
    {
        assert(bytes@.skip(i as int).skip(1) =~= bytes@.skip(i + 1));
        i = i + 1;
    }
    i
}

/// The position of the first line feed in a text, or the length if there is none.
pub open spec fn line_end(text: Seq<char>) -> int
    decreases text.len(),
{
    if text.len() == 0 || text[0] == '\n' {
        0
    } else {
        1 + line_end(text.skip(1))
    }
}

/// What a stream whose last task is `last` results in if it ends behind `text`.
pub open spec fn content_result(text: Seq<char>, last: Option<TaskView>) -> Result<
    TaskView,
    Seq<char>,
>
    decreases text.len(),
{
    let end = line_end(text);
    if end < 0 || end >= text.len() {
        match last {
            Some(task) => Ok(task),
            None => Err("SSE stream ended without a final event"@),
        }
    } else {
        let rest = text.skip(end + 1);
        match line_outcome(without_trailing(text.take(end), "\r"@)) {
            OutcomeView::Skip => content_result(rest, last),
            OutcomeView::Error(text) => Err(text),
            OutcomeView::Task(task, true) => Ok(task),
            OutcomeView::Task(task, false) => content_result(rest, Some(task)),
        }
    }
}

/// The position of the first line feed from `start` on, or the length if there is none.
fn find_line_end(chars: &Vec<char>, start: usize) -> (r: usize)
    requires
        start <= chars@.len(),
    ensures
        start <= r <= chars@.len(),
        r - start == line_end(chars@.skip(start as int)),
{
    let mut i: usize = start;
    while i < chars.len() && chars[i] != '\n'
        invariant
            start <= i <= chars.len(),
            line_end(chars@.skip(start as int)) == i - start + line_end(chars@.skip(i as int)),
        decreases chars.len() - i,
    {
        assert(chars@.skip(i as int).skip(1) =~= chars@.skip(i + 1));
        i = i + 1;
    }
    i
}

/// Parse a complete SSE stream body and return the final `A2aTask`.
///
/// - Lines beginning with `data: ` are JSON-parsed via `process_sse_line`.
/// - A line with `"error"` in the JSON object returns `Err`, whatever else is in it; only a
///   `null` error beside a `"result"` is none.
/// - A line with `"result"` that has `"final": true` returns immediately.
/// - Malformed JSON lines are skipped.
/// - If the stream ends without a `"final": true` event, the last observed task
///   is returned (partial result) or an `Err` if no task was seen at all.
pub fn parse_sse_content(content: &str) -> (r: Result<A2aTask, String>)
    ensures
        result_view(r) == content_result(content@, None),
{
    let chars: Vec<char> = chars_of(content);
    let mut start: usize = 0;
    let mut last_task: Option<A2aTask> = None;
    assert(content@.skip(0) =~= content@);
    loop
        invariant
            chars@ == content@,
            start <= chars.len(),
            content_result(content@, None) == content_result(
                content@.skip(start as int),
                optional_task(last_task),
            ),
        decreases chars.len() - start,
    {
        let end: usize = find_line_end(&chars, start);
        if end == chars.len() {
            return match last_task {
                Some(task) => Ok(task),
                None => Err("SSE stream ended without a final event".to_string()),
            };
        }
        let ghost rest = content@.skip(start as int);
        assert(rest.take(end - start) =~= content@.subrange(start as int, end as int));
        assert(rest.skip(end - start + 1) =~= content@.skip(end + 1));
        let line: &str = trim_end_matches(content.substring_char(start, end), "\r");
        match process_sse_line(line) {
            SseLineOutcome::Task(task, last) => {
                if last {
                    return Ok(task);
                }
                last_task = Some(task);
            },
            SseLineOutcome::Error(text) => {
                return Err(text);
            },
            SseLineOutcome::Skip => {},
        }
        start = end + 1;
    }
}

} // verus!
