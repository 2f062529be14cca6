//! Laws of streams of server-sent events.

use crate::a2a::sse::{
    content_result, line_end, line_feed, line_outcome, line_text, payload, run, stream_result,
    without_return, OutcomeView, StreamRun, StreamState,
};
use crate::a2a::types::TaskView;
use crate::json::{json_parsed, json_written, member, JsonTree};
use crate::text::{
    has_prefix, has_suffix, trimmed, trimmed_end, trimmed_start, white_space, without_trailing,
};
use vstd::prelude::*;
use vstd::utf8::{
    encode_scalar, encode_utf8, encode_utf8_decode_utf8, encode_utf8_valid_utf8,
    has_width_1_encoding, has_width_2_encoding, has_width_3_encoding, last_continuation_byte,
    leading_byte_width_2, leading_byte_width_3, leading_byte_width_4,
    second_last_continuation_byte, third_last_continuation_byte,
};

verus! {

/// A stream that goes on from `first` with what `second` did.
pub open spec fn continued(first: StreamRun, second: StreamRun) -> StreamRun {
    StreamRun { seen: first.seen + second.seen, state: second.state }
}

/// The first line feed of `a + b` is that of `a` if `a` has one, and stands behind `a` otherwise.
pub(crate) proof fn lemma_line_feed_concat(a: Seq<u8>, b: Seq<u8>)
    ensures
        0 <= line_feed(a) <= a.len(),
        line_feed(a) < a.len() ==> line_feed(a + b) == line_feed(a),
        line_feed(a) == a.len() ==> line_feed(a + b) == a.len() + line_feed(b),
    decreases a.len(),
{
    if a.len() == 0 {
        assert(a + b =~= b);
    } else {
        assert((a + b)[0] == a[0]);
        if a[0] != 10 {
            assert((a + b).skip(1) =~= a.skip(1) + b);
            lemma_line_feed_concat(a.skip(1), b);
        }
    }
}

/// How a stream is cut into chunks does not matter: what it shows and where it stands behind
/// `a + b` is what it shows behind `a`, and, if `a` did not end it, what it then shows when the
/// unfinished line of `a` goes on with `b`.
pub proof fn chunks_do_not_matter(a: Seq<u8>, b: Seq<u8>, last: Option<TaskView>)
    ensures
        run(a + b, last) == match run(a, last).state {
            StreamState::Open { rest, last: seen } => continued(
                run(a, last),
                run(rest + b, seen),
            ),
            _ => run(a, last),
        },
    decreases a.len(),
{
    lemma_line_feed_concat(a, b);
    let end = line_feed(a);
    if end == a.len() {
        assert(continued(run(a, last), run(a + b, last)).seen =~= run(a + b, last).seen);
    } else {
        assert((a + b).take(end) =~= a.take(end));
        assert((a + b).skip(end + 1) =~= a.skip(end + 1) + b);
        let rest = a.skip(end + 1);
        match line_outcome(line_text(without_return(a.take(end)))) {
            OutcomeView::Skip => {
                chunks_do_not_matter(rest, b, last);
            },
            OutcomeView::Error(_) => {},
            OutcomeView::Task(_, true) => {},
            OutcomeView::Task(task, false) => {
                chunks_do_not_matter(rest, b, Some(task));
                let more = run(rest, Some(task));
                match more.state {
                    StreamState::Open { rest: left, last: seen } => {
                        let then = run(left + b, seen);
                        assert(seq![task] + (more.seen + then.seen) =~= (seq![task] + more.seen)
                            + then.seen);
                    },
                    _ => {},
                }
            },
        }
    }
}

/// Every task that a stream shows becomes its last task, until another one does: an open stream
/// and a finished one give back the task that was shown last.
pub proof fn last_task_is_last_seen(bytes: Seq<u8>, last: Option<TaskView>)
    ensures
        run(bytes, last).seen.len() > 0 ==> match run(bytes, last).state {
            StreamState::Open { last: now, .. } => now == Some(run(bytes, last).seen.last()),
            StreamState::Done(task) => task == run(bytes, last).seen.last(),
            StreamState::Failed(_) => true,
        },
        run(bytes, last).seen.len() == 0 ==> match run(bytes, last).state {
            StreamState::Open { last: now, .. } => now == last,
            StreamState::Done(_) => false,
            StreamState::Failed(_) => true,
        },
    decreases bytes.len(),
{
    lemma_line_feed_concat(bytes, Seq::empty());
    let end = line_feed(bytes);
    if end < bytes.len() {
        let rest = bytes.skip(end + 1);
        match line_outcome(line_text(without_return(bytes.take(end)))) {
            OutcomeView::Skip => {
                last_task_is_last_seen(rest, last);
            },
            OutcomeView::Error(_) => {},
            OutcomeView::Task(_, true) => {},
            OutcomeView::Task(task, false) => {
                last_task_is_last_seen(rest, Some(task));
                let more = run(rest, Some(task));
                if more.seen.len() > 0 {
                    assert((seq![task] + more.seen).last() == more.seen.last());
                }
            },
        }
    }
}

/// The bytes of a character: a line feed and a carriage return stand for themselves, and no byte
/// of another character is one of the two.
proof fn lemma_scalar_bytes(c: char)
    ensures
        c == '\n' ==> encode_scalar(c as u32) == seq![10u8],
        c == '\r' ==> encode_scalar(c as u32) == seq![13u8],
        encode_scalar(c as u32).len() >= 1,
        c != '\n' ==> forall|i: int|
            0 <= i < encode_scalar(c as u32).len() ==> #[trigger] encode_scalar(c as u32)[i] != 10,
        c != '\r' ==> encode_scalar(c as u32).last() != 13,
{
    let v = c as u32;
    if has_width_1_encoding(v) {
        assert((v & 0x7F) as u8 == v) by (bit_vector)
            requires
                v <= 0x7F,
        ;
    } else {
        assert(0xC0u8 | ((v >> 6) & 0x1F) as u8 >= 0x80) by (bit_vector);
        assert(0xE0u8 | ((v >> 12) & 0x0F) as u8 >= 0x80) by (bit_vector);
        assert(0xF0u8 | ((v >> 18) & 0x7) as u8 >= 0x80) by (bit_vector);
        assert(0x80u8 | (v & 0x3F) as u8 >= 0x80) by (bit_vector);
        assert(0x80u8 | ((v >> 6) & 0x3F) as u8 >= 0x80) by (bit_vector);
        assert(0x80u8 | ((v >> 12) & 0x3F) as u8 >= 0x80) by (bit_vector);
        let bytes = encode_scalar(v);
        assert forall|i: int| 0 <= i < bytes.len() implies bytes[i] >= 0x80 by {
            if has_width_2_encoding(v) {
                assert(bytes == seq![leading_byte_width_2(v), last_continuation_byte(v)]);
            } else if has_width_3_encoding(v) {
                assert(bytes == seq![
                    leading_byte_width_3(v),
                    second_last_continuation_byte(v),
                    last_continuation_byte(v),
                ]);
            } else {
                assert(bytes == seq![
                    leading_byte_width_4(v),
                    third_last_continuation_byte(v),
                    second_last_continuation_byte(v),
                    last_continuation_byte(v),
                ]);
            }
        }
    }
}

/// The bytes of a text are those of its parts.
proof fn lemma_encode_concat(a: Seq<char>, b: Seq<char>)
    ensures
        encode_utf8(a + b) == encode_utf8(a) + encode_utf8(b),
    decreases a.len(),
{
    if a.len() == 0 {
        assert(a + b =~= b);
    } else {
        assert((a + b).drop_first() =~= a.drop_first() + b);
        lemma_encode_concat(a.drop_first(), b);
    }
}

/// The bytes of one character.
proof fn lemma_encode_one(c: char)
    ensures
        encode_utf8(seq![c]) == encode_scalar(c as u32),
{
    reveal_with_fuel(encode_utf8, 2);
    assert(seq![c].drop_first() =~= Seq::empty());
    assert(encode_utf8(seq![c]) =~= encode_scalar(c as u32));
}

/// A text has a line feed where its bytes have one.
pub(crate) proof fn lemma_line_end_bytes(text: Seq<char>)
    ensures
        0 <= line_end(text) <= text.len(),
        line_end(text) < text.len() ==> text[line_end(text)] == '\n',
        line_feed(encode_utf8(text)) == encode_utf8(text.take(line_end(text))).len(),
        line_end(text) == text.len() ==> line_feed(encode_utf8(text)) == encode_utf8(text).len(),
    decreases text.len(),
{
    if text.len() > 0 {
        let first = encode_scalar(text[0] as u32);
        lemma_scalar_bytes(text[0]);
        assert(text.drop_first() =~= text.skip(1));
        if text[0] == '\n' {
            assert(encode_utf8(text)[0] == 10);
            assert(text.take(0) =~= Seq::empty());
        } else {
            lemma_line_end_bytes(text.skip(1));
            let end = line_end(text);
            lemma_no_line_feed(first);
            lemma_line_feed_concat(first, encode_utf8(text.skip(1)));
            assert(text.take(end).drop_first() =~= text.skip(1).take(end - 1));
            assert(text.take(end)[0] == text[0]);
            if end == text.len() {
                assert(text.take(end) =~= text);
            }
        }
    } else {
        assert(text.take(0) =~= text);
    }
}

/// Bytes without a line feed have none.
proof fn lemma_no_line_feed(bytes: Seq<u8>)
    requires
        forall|i: int| 0 <= i < bytes.len() ==> bytes[i] != 10,
    ensures
        line_feed(bytes) == bytes.len(),
    decreases bytes.len(),
{
    if bytes.len() > 0 {
        assert forall|i: int| 0 <= i < bytes.skip(1).len() implies bytes.skip(1)[i] != 10 by {
            assert(bytes.skip(1)[i] == bytes[i + 1]);
        }
        lemma_no_line_feed(bytes.skip(1));
    }
}

/// Trimming the start of a text with one more carriage return.
proof fn lemma_trim_start_return(text: Seq<char>)
    ensures
        trimmed_start(text).len() > 0 ==> trimmed_start(text.push('\r')) == trimmed_start(
            text,
        ).push('\r'),
        trimmed_start(text).len() == 0 ==> trimmed_start(text.push('\r')) == Seq::<char>::empty(),
    decreases text.len(),
{
    assert(white_space('\r'));
    if text.len() == 0 {
        assert(text.push('\r').skip(1) =~= Seq::empty());
        reveal_with_fuel(trimmed_start, 2);
    } else {
        assert(text.push('\r')[0] == text[0]);
        if white_space(text[0]) {
            assert(text.push('\r').skip(1) =~= text.skip(1).push('\r'));
            lemma_trim_start_return(text.skip(1));
        }
    }
}

/// A carriage return at the end of a line says nothing.
pub proof fn return_says_nothing(line: Seq<char>)
    ensures
        line_outcome(line.push('\r')) == line_outcome(line),
{
    let prefix = "data: "@;
    reveal_strlit("data: ");
    let more = line.push('\r');
    assert(prefix.len() == 6);
    assert(prefix[5] == ' ');
    if line.len() >= 6 {
        assert(more.take(6) =~= line.take(6));
        assert(more.skip(6) =~= line.skip(6).push('\r'));
        let rest = line.skip(6);
        lemma_trim_start_return(rest);
        let kept = trimmed_start(rest);
        if kept.len() > 0 {
            assert(kept.push('\r').last() == '\r');
            assert(kept.push('\r').drop_last() =~= kept);
            assert(trimmed_end(kept.push('\r')) == trimmed_end(kept));
        }
        assert(trimmed(more.skip(6)) == trimmed(rest));
    } else {
        if has_prefix(more, prefix) {
            assert(more.take(6)[5] == '\r');
        }
    }
}

/// Carriage returns at the end of a line say nothing.
pub(crate) proof fn lemma_returns_say_nothing(line: Seq<char>)
    ensures
        line_outcome(without_trailing(line, "\r"@)) == line_outcome(line),
    decreases line.len(),
{
    reveal_strlit("\r");
    let part = "\r"@;
    assert(part =~= seq!['\r']);
    if has_suffix(line, part) {
        assert(line.skip(line.len() - 1)[0] == '\r');
        let shorter = line.take(line.len() - 1);
        assert(line =~= shorter.push('\r'));
        return_says_nothing(shorter);
        lemma_returns_say_nothing(shorter);
    }
}

/// A line says in a text what its bytes say in a stream.
pub(crate) proof fn lemma_line_bytes(line: Seq<char>)
    ensures
        line_outcome(line_text(without_return(encode_utf8(line)))) == line_outcome(
            without_trailing(line, "\r"@),
        ),
{
    lemma_returns_say_nothing(line);
    encode_utf8_valid_utf8(line);
    encode_utf8_decode_utf8(line);
    if line.len() > 0 {
        let body = line.drop_last();
        let c = line.last();
        assert(line =~= body + seq![c]);
        lemma_encode_concat(body, seq![c]);
        lemma_encode_one(c);
        lemma_scalar_bytes(c);
        encode_utf8_valid_utf8(body);
        encode_utf8_decode_utf8(body);
        if c == '\r' {
            assert(encode_utf8(line).drop_last() =~= encode_utf8(body));
            assert(line =~= body.push('\r'));
            return_says_nothing(body);
        }
    }
}

/// A text results in what the stream of its bytes results in.
pub proof fn content_is_stream(text: Seq<char>, last: Option<TaskView>)
    ensures
        content_result(text, last) == stream_result(run(encode_utf8(text), last).state),
    decreases text.len(),
{
    lemma_line_end_bytes(text);
    let end = line_end(text);
    if end < text.len() {
        let line = text.take(end);
        let rest = text.skip(end + 1);
        let bytes = encode_utf8(text);
        assert(text =~= line + (seq!['\n'] + rest));
        lemma_encode_concat(line, seq!['\n'] + rest);
        lemma_encode_concat(seq!['\n'], rest);
        lemma_encode_one('\n');
        lemma_scalar_bytes('\n');
        let at = encode_utf8(line).len() as int;
        assert(bytes == encode_utf8(line) + (seq![10u8] + encode_utf8(rest)));
        assert(bytes.take(at) =~= encode_utf8(line));
        assert(bytes.skip(at + 1) =~= encode_utf8(rest));
        lemma_line_bytes(line);
        content_is_stream(rest, last);
        match line_outcome(without_trailing(line, "\r"@)) {
            OutcomeView::Task(task, false) => {
                content_is_stream(rest, Some(task));
            },
            _ => {},
        }
    }
}

/// A line with an error in its JSON object ends the stream with that error, whatever stands
/// under `result` in it, and whatever came before or comes after.
pub proof fn error_line_ends_stream(
    text: Seq<char>,
    last: Option<TaskView>,
    event: JsonTree,
    error: JsonTree,
)
    requires
        line_end(text) < text.len(),
        has_prefix(without_trailing(text.take(line_end(text)), "\r"@), "data: "@),
        payload(without_trailing(text.take(line_end(text)), "\r"@)).len() > 0,
        json_parsed(payload(without_trailing(text.take(line_end(text)), "\r"@))) == Some(event),
        member(event, "error"@) == Some(error),
        error != JsonTree::Null,
    ensures
        content_result(text, last) == Err::<TaskView, Seq<char>>(
            "A2A SSE error: "@ + json_written(error),
        ),
        stream_result(run(encode_utf8(text), last).state) == content_result(text, last),
{
    lemma_line_end_bytes(text);
    content_is_stream(text, last);
    let line = without_trailing(text.take(line_end(text)), "\r"@);
    assert(line_outcome(line) == OutcomeView::Error("A2A SSE error: "@ + json_written(error)));
}

} // verus!
