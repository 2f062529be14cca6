//! Laws of the dream pass: what the language model is told, and what becomes of its answers.

use crate::dream::dreamer::{
    answer_reply, dream_prompt, dream_system, dreamed, existing_line, fallback, fallback_content,
    fallback_parts, injected, insight_of, merged, Answer, CompletionRequest, DreamPass,
    DreamResult, DreamResultView, Insight,
};
use crate::dream::mini_dream::{has_insight, last_dreamed, memory_topic};
use crate::dream::persist::{
    next_action, progressed, successes, ActionView, PersistAction, Progress,
};
use crate::dream::response::{
    unfenced, DreamResponse, DreamTopic, DreamTopicView, ReplyView,
};
use crate::ids::UserId;
use crate::memory::extractions::ExtractionView;
use crate::memory::table::{others, views};
use crate::memory::time::{instant_read, Timestamp};
use crate::message::{MessageSource, MessageTextView};
use crate::text::{
    has_prefix, has_suffix, is_blank, joined, optional_text, texts, trimmed,
    trimming_strips_white_space, white_space, without_leading, without_trailing,
};
use vstd::prelude::*;

verus! {

/// The lists of all extractions are merged in their order: a further extraction adds each of its
/// lists to the list of the same kind.
pub proof fn lists_are_merged_in_order(extractions: Seq<ExtractionView>, next: ExtractionView)
    ensures
        merged(extractions.push(next), Insight::Facts) == merged(extractions, Insight::Facts)
            + next.facts,
        merged(extractions.push(next), Insight::Preferences) == merged(
            extractions,
            Insight::Preferences,
        ) + next.preferences,
        merged(extractions.push(next), Insight::Decisions) == merged(
            extractions,
            Insight::Decisions,
        ) + next.decisions,
        merged(extractions.push(next), Insight::Tasks) == merged(extractions, Insight::Tasks)
            + next.tasks,
        merged(extractions.push(next), Insight::OpenItems) == merged(
            extractions,
            Insight::OpenItems,
        ) + next.open_items,
        forall|kind: Insight| #[trigger] merged(Seq::empty(), kind).len() == 0,
{
    assert(extractions.push(next).drop_last() =~= extractions);
}

/// The merged lists are the lists of the extractions, one behind the other.
proof fn lemma_merged(extractions: Seq<ExtractionView>, kind: Insight)
    ensures
        merged(extractions, kind) == extractions.map_values(
            |e: ExtractionView| insight_of(e, kind),
        ).flatten_alt(),
    decreases extractions.len(),
{
    let lists = extractions.map_values(|e: ExtractionView| insight_of(e, kind));
    if extractions.len() > 0 {
        lemma_merged(extractions.drop_last(), kind);
        assert(lists.drop_last() =~= extractions.drop_last().map_values(
            |e: ExtractionView| insight_of(e, kind),
        ));
    }
}

/// The merged list of each kind is made of that field of the extractions.
proof fn lemma_merged_fields(extractions: Seq<ExtractionView>)
    ensures
        merged(extractions, Insight::Facts) == extractions.map_values(
            |e: ExtractionView| e.facts,
        ).flatten_alt(),
        merged(extractions, Insight::Preferences) == extractions.map_values(
            |e: ExtractionView| e.preferences,
        ).flatten_alt(),
        merged(extractions, Insight::Decisions) == extractions.map_values(
            |e: ExtractionView| e.decisions,
        ).flatten_alt(),
        merged(extractions, Insight::Tasks) == extractions.map_values(
            |e: ExtractionView| e.tasks,
        ).flatten_alt(),
        merged(extractions, Insight::OpenItems) == extractions.map_values(
            |e: ExtractionView| e.open_items,
        ).flatten_alt(),
{
    lemma_merged(extractions, Insight::Facts);
    lemma_merged(extractions, Insight::Preferences);
    lemma_merged(extractions, Insight::Decisions);
    lemma_merged(extractions, Insight::Tasks);
    lemma_merged(extractions, Insight::OpenItems);
    assert(extractions.map_values(|e: ExtractionView| insight_of(e, Insight::Facts))
        =~= extractions.map_values(|e: ExtractionView| e.facts));
    assert(extractions.map_values(|e: ExtractionView| insight_of(e, Insight::Preferences))
        =~= extractions.map_values(|e: ExtractionView| e.preferences));
    assert(extractions.map_values(|e: ExtractionView| insight_of(e, Insight::Decisions))
        =~= extractions.map_values(|e: ExtractionView| e.decisions));
    assert(extractions.map_values(|e: ExtractionView| insight_of(e, Insight::Tasks))
        =~= extractions.map_values(|e: ExtractionView| e.tasks));
    assert(extractions.map_values(|e: ExtractionView| insight_of(e, Insight::OpenItems))
        =~= extractions.map_values(|e: ExtractionView| e.open_items));
}

/// How a list is told: its items with `; ` between them, or `(none)`.
pub open spec fn told(items: Seq<Seq<char>>) -> Seq<char> {
    if items.len() > 0 {
        joined(items, "; "@)
    } else {
        "(none)"@
    }
}

/// What a prompt begins with.
pub open spec fn opening() -> Seq<char> {
    "You are consolidating a conversation into persistent user memory organized by topic.\n\nAccumulated insights from this session:\n"@
}

/// What a prompt ends with.
pub open spec fn closing() -> Seq<char> {
    "\n\nInstructions:\n1. Produce 3-7 named memory topics that reflect the complete, current state of the user's memory.\n2. If new information contradicts an existing topic, the new information wins. List the old topic name in `supersedes`.\n3. For time-sensitive facts (travel plans, temporary preferences, deadlines), set `expires_at` to an ISO 8601 timestamp (e.g. \"2026-04-10T00:00:00Z\"). For durable facts set `expires_at` to null.\n4. Topic names must be snake_case. Good examples: work_context, preferences, open_items, family_context, upcoming_travel.\n\nReturn ONLY valid JSON:\n{\n\"supersedes\": [\"old_topic_name_if_any\"],\n\"topics\": [\n{\n\"topic\": \"snake_case_name\",\n\"summary\": \"one line description of what this topic contains\",\n\"content\": \"full content for this topic, 2-10 sentences\",\n\"expires_at\": null\n}\n]\n}"@
}

/// `text` holds `label` with `value` directly behind it, up to `next`.
pub open spec fn has_labelled(
    text: Seq<char>,
    label: Seq<char>,
    value: Seq<char>,
    next: Seq<char>,
) -> bool {
    exists|before: Seq<char>, after: Seq<char>|
        text == #[trigger] (before + (label + value + next) + after)
}

/// The prompt tells every list of the extractions behind its own label, then the recent
/// conversation, then each existing topic with its name and content.
pub proof fn prompt_tells_every_list(
    extractions: Seq<ExtractionView>,
    recent: Seq<char>,
    existing: Seq<(Seq<char>, Seq<char>)>,
)
    ensures
        dream_prompt(extractions, recent, existing) == opening() + "Facts: "@ + told(
            extractions.map_values(|e: ExtractionView| e.facts).flatten_alt(),
        ) + "\nPreferences: "@ + told(
            extractions.map_values(|e: ExtractionView| e.preferences).flatten_alt(),
        ) + "\nDecisions: "@ + told(
            extractions.map_values(|e: ExtractionView| e.decisions).flatten_alt(),
        ) + "\nTasks completed: "@ + told(
            extractions.map_values(|e: ExtractionView| e.tasks).flatten_alt(),
        ) + "\nOpen items: "@ + told(
            extractions.map_values(|e: ExtractionView| e.open_items).flatten_alt(),
        ) + "\n\nRecent conversation:\n"@ + recent
            + "\n\nExisting memory topics (full content — check for contradictions):\n"@ + (
        if existing.len() > 0 {
            joined(
                existing.map_values(
                    |t: (Seq<char>, Seq<char>)| "  ["@ + t.0 + "]: "@ + t.1,
                ),
                "\n"@,
            )
        } else {
            "(none)"@
        }) + closing(),
{
    lemma_merged_fields(extractions);
    reveal_strlit(
        "You are consolidating a conversation into persistent user memory organized by topic.\n\nAccumulated insights from this session:\nFacts: ",
    );
    reveal_strlit(
        "You are consolidating a conversation into persistent user memory organized by topic.\n\nAccumulated insights from this session:\n",
    );
    reveal_strlit("Facts: ");
    assert("You are consolidating a conversation into persistent user memory organized by topic.\n\nAccumulated insights from this session:\nFacts: "@
        =~= opening() + "Facts: "@);
    assert(existing.map_values(
        |t: (Seq<char>, Seq<char>)| existing_line(t),
    ) =~= existing.map_values(|t: (Seq<char>, Seq<char>)| "  ["@ + t.0 + "]: "@ + t.1));
}

/// The prompt for one extraction has each of its lists directly behind the label of that list.
pub proof fn prompt_tells_one_extraction(
    extraction: ExtractionView,
    recent: Seq<char>,
    existing: Seq<(Seq<char>, Seq<char>)>,
)
    ensures
        ({
            let prompt = dream_prompt(seq![extraction], recent, existing);
            &&& has_labelled(prompt, "Facts: "@, told(extraction.facts), "\nPreferences: "@)
            &&& has_labelled(
                prompt,
                "\nPreferences: "@,
                told(extraction.preferences),
                "\nDecisions: "@,
            )
            &&& has_labelled(
                prompt,
                "\nDecisions: "@,
                told(extraction.decisions),
                "\nTasks completed: "@,
            )
            &&& has_labelled(
                prompt,
                "\nTasks completed: "@,
                told(extraction.tasks),
                "\nOpen items: "@,
            )
            &&& has_labelled(
                prompt,
                "\nOpen items: "@,
                told(extraction.open_items),
                "\n\nRecent conversation:\n"@,
            )
            &&& has_labelled(
                prompt,
                "\n\nRecent conversation:\n"@,
                recent,
                "\n\nExisting memory topics (full content — check for contradictions):\n"@,
            )
        }),
{
    let e = seq![extraction];
    prompt_tells_every_list(e, recent, existing);
    lemma_one_list(e.map_values(|e: ExtractionView| e.facts), extraction.facts);
    lemma_one_list(e.map_values(|e: ExtractionView| e.preferences), extraction.preferences);
    lemma_one_list(e.map_values(|e: ExtractionView| e.decisions), extraction.decisions);
    lemma_one_list(e.map_values(|e: ExtractionView| e.tasks), extraction.tasks);
    lemma_one_list(e.map_values(|e: ExtractionView| e.open_items), extraction.open_items);
    let prompt = dream_prompt(e, recent, existing);
    let a = "Facts: "@;
    let b = "\nPreferences: "@;
    let c = "\nDecisions: "@;
    let d = "\nTasks completed: "@;
    let f = "\nOpen items: "@;
    let g = "\n\nRecent conversation:\n"@;
    let h = "\n\nExisting memory topics (full content — check for contradictions):\n"@;
    let topics = if existing.len() > 0 {
        joined(
            existing.map_values(|t: (Seq<char>, Seq<char>)| "  ["@ + t.0 + "]: "@ + t.1),
            "\n"@,
        )
    } else {
        "(none)"@
    };
    lemma_seven_parts(
        prompt,
        opening(),
        seq![a, b, c, d, f, g, h],
        seq![
            told(extraction.facts),
            told(extraction.preferences),
            told(extraction.decisions),
            told(extraction.tasks),
            told(extraction.open_items),
            recent,
        ],
        topics,
        closing(),
    );
}

/// One list is all there is.
proof fn lemma_one_list(lists: Seq<Seq<Seq<char>>>, list: Seq<Seq<char>>)
    requires
        lists.len() == 1,
        lists[0] == list,
    ensures
        lists.flatten_alt() == list,
{
    reveal_with_fuel(Seq::<_>::flatten_alt, 2);
    assert(lists.drop_last() =~= Seq::empty());
    assert(lists.flatten_alt() =~= list);
}

/// Each value of a text that alternates labels and values stands behind its label.
proof fn lemma_seven_parts(
    text: Seq<char>,
    start: Seq<char>,
    l: Seq<Seq<char>>,
    v: Seq<Seq<char>>,
    topics: Seq<char>,
    end: Seq<char>,
)
    requires
        l.len() == 7,
        v.len() == 6,
        text == start + l[0] + v[0] + l[1] + v[1] + l[2] + v[2] + l[3] + v[3] + l[4] + v[4] + l[5]
            + v[5] + l[6] + topics + end,
    ensures
        has_labelled(text, l[0], v[0], l[1]),
        has_labelled(text, l[1], v[1], l[2]),
        has_labelled(text, l[2], v[2], l[3]),
        has_labelled(text, l[3], v[3], l[4]),
        has_labelled(text, l[4], v[4], l[5]),
        has_labelled(text, l[5], v[5], l[6]),
{
    let z6 = topics + end;
    let z5 = v[5] + l[6] + z6;
    let z4 = v[4] + l[5] + z5;
    let z3 = v[3] + l[4] + z4;
    let z2 = v[2] + l[3] + z3;
    let z1 = v[1] + l[2] + z2;
    let a0 = start;
    let a1 = a0 + l[0] + v[0];
    let a2 = a1 + l[1] + v[1];
    let a3 = a2 + l[2] + v[2];
    let a4 = a3 + l[3] + v[3];
    let a5 = a4 + l[4] + v[4];
    assert(text =~= a5 + (l[5] + v[5] + l[6]) + z6);
    assert(text =~= a4 + (l[4] + v[4] + l[5]) + z5);
    assert(text =~= a3 + (l[3] + v[3] + l[4]) + z4);
    assert(text =~= a2 + (l[2] + v[2] + l[3]) + z3);
    assert(text =~= a1 + (l[1] + v[1] + l[2]) + z2);
    assert(text =~= a0 + (l[0] + v[0] + l[1]) + z1);
}

/// The line of a list under a heading: none for an empty list.
pub open spec fn under(heading: Seq<char>, items: Seq<Seq<char>>) -> Seq<Seq<char>> {
    if items.len() > 0 {
        seq![heading + joined(items, "; "@)]
    } else {
        Seq::empty()
    }
}

/// The fallback content has a line for each list that is not empty, each under its own heading,
/// and says so if all of them are empty.
pub proof fn fallback_tells_every_list(
    facts: Seq<Seq<char>>,
    preferences: Seq<Seq<char>>,
    decisions: Seq<Seq<char>>,
    tasks: Seq<Seq<char>>,
    open_items: Seq<Seq<char>>,
)
    ensures
        ({
            let content = fallback_content(facts, preferences, decisions, tasks, open_items);
            if facts.len() + preferences.len() + decisions.len() + tasks.len() + open_items.len()
                == 0 {
                content == "No structured information extracted from this session."@
            } else {
                content == joined(
                    under("Facts: "@, facts) + under("Preferences: "@, preferences) + under(
                        "Decisions: "@,
                        decisions,
                    ) + under("Tasks: "@, tasks) + under("Open items: "@, open_items),
                    "\n"@,
                )
            }
        }),
{
    assert(fallback_parts(facts, preferences, decisions, tasks, open_items) =~= under(
        "Facts: "@,
        facts,
    ) + under("Preferences: "@, preferences) + under("Decisions: "@, decisions) + under(
        "Tasks: "@,
        tasks,
    ) + under("Open items: "@, open_items));
}

/// The fallback is one topic `general` of the user, which never expires and supersedes nothing,
/// with every list of the extractions under its own heading.
pub proof fn fallback_keeps_every_list(extractions: Seq<ExtractionView>, user: UserId)
    ensures
        ({
            let result = fallback(extractions, user);
            let facts = extractions.map_values(|e: ExtractionView| e.facts).flatten_alt();
            let preferences = extractions.map_values(
                |e: ExtractionView| e.preferences,
            ).flatten_alt();
            let decisions = extractions.map_values(|e: ExtractionView| e.decisions).flatten_alt();
            let tasks = extractions.map_values(|e: ExtractionView| e.tasks).flatten_alt();
            let open_items = extractions.map_values(
                |e: ExtractionView| e.open_items,
            ).flatten_alt();
            &&& result.user_id == user
            &&& result.superseded_topics.len() == 0
            &&& result.topics.len() == 1
            &&& result.topics[0].topic == "general"@
            &&& result.topics[0].summary
                == "General session memory (dream consolidation unavailable)"@
            &&& result.topics[0].expires_at is None
            &&& if facts.len() + preferences.len() + decisions.len() + tasks.len()
                + open_items.len() == 0 {
                result.topics[0].content
                    == "No structured information extracted from this session."@
            } else {
                result.topics[0].content == joined(
                    under("Facts: "@, facts) + under("Preferences: "@, preferences) + under(
                        "Decisions: "@,
                        decisions,
                    ) + under("Tasks: "@, tasks) + under("Open items: "@, open_items),
                    "\n"@,
                )
            }
        }),
{
    lemma_merged_fields(extractions);
    fallback_tells_every_list(
        extractions.map_values(|e: ExtractionView| e.facts).flatten_alt(),
        extractions.map_values(|e: ExtractionView| e.preferences).flatten_alt(),
        extractions.map_values(|e: ExtractionView| e.decisions).flatten_alt(),
        extractions.map_values(|e: ExtractionView| e.tasks).flatten_alt(),
        extractions.map_values(|e: ExtractionView| e.open_items).flatten_alt(),
    );
}

/// The fallback for one extraction has each of its lists under its own heading.
pub proof fn fallback_keeps_one_extraction(extraction: ExtractionView, user: UserId)
    requires
        extraction.facts.len() + extraction.preferences.len() + extraction.decisions.len()
            + extraction.tasks.len() + extraction.open_items.len() > 0,
    ensures
        fallback(seq![extraction], user).topics.len() == 1,
        fallback(seq![extraction], user).topics[0].content == joined(
            under("Facts: "@, extraction.facts) + under("Preferences: "@, extraction.preferences)
                + under("Decisions: "@, extraction.decisions) + under("Tasks: "@, extraction.tasks)
                + under("Open items: "@, extraction.open_items),
            "\n"@,
        ),
{
    let e = seq![extraction];
    fallback_keeps_every_list(e, user);
    lemma_one_list(e.map_values(|e: ExtractionView| e.facts), extraction.facts);
    lemma_one_list(e.map_values(|e: ExtractionView| e.preferences), extraction.preferences);
    lemma_one_list(e.map_values(|e: ExtractionView| e.decisions), extraction.decisions);
    lemma_one_list(e.map_values(|e: ExtractionView| e.tasks), extraction.tasks);
    lemma_one_list(e.map_values(|e: ExtractionView| e.open_items), extraction.open_items);
}

/// The language model is told to be a memory assistant that answers in JSON alone.
pub proof fn system_asks_for_json()
    ensures
        dream_system()
            == "You are a memory consolidation assistant. Organize conversation insights into structured topics with conflict resolution and expiry tagging. Return ONLY valid JSON. Do not include any text outside the JSON object."@,
{
}

/// An attempt that came to nothing: the call failed, or the text was empty or could not be
/// decoded.
pub open spec fn is_silent(answer: Answer) -> bool {
    match answer {
        Answer::Failed => true,
        Answer::Text { text, decoded } => text.len() == 0 || decoded is None,
    }
}

/// The first reply that can be decoded is the dream, whatever failed before it and whatever comes
/// after it: its topics and the topics that it supersedes, all of them, for the user.
pub proof fn first_reply_is_the_dream(
    extractions: Seq<ExtractionView>,
    user: UserId,
    silent: Seq<Answer>,
    text: Seq<char>,
    reply: ReplyView,
    after: Seq<Answer>,
)
    requires
        forall|i: int| 0 <= i < silent.len() ==> is_silent(#[trigger] silent[i]),
        text.len() > 0,
    ensures
        ({
            let answer = Answer::Text { text, decoded: Some(reply) };
            let result = dreamed(extractions, user, silent.push(answer) + after);
            &&& result.topics == reply.topics
            &&& result.superseded_topics == reply.superseded
            &&& result.user_id == user
        }),
        dreamed(extractions, user, silent) == fallback(extractions, user),
    decreases silent.len(),
{
    let answer = Answer::Text { text, decoded: Some(reply) };
    let all = silent.push(answer) + after;
    if silent.len() == 0 {
        assert(all[0] == answer);
    } else {
        let rest = silent.skip(1);
        assert(all[0] == silent[0]);
        assert(is_silent(silent[0]));
        assert(all.skip(1) =~= rest.push(answer) + after);
        assert forall|i: int| 0 <= i < rest.len() implies is_silent(#[trigger] rest[i]) by {
            assert(rest[i] == silent[i + 1]);
        }
        first_reply_is_the_dream(extractions, user, rest, text, reply, after);
    }
}

/// A message that was not put in as context reaches the dream, in its place.
pub proof fn conversation_is_kept(
    before: Seq<MessageTextView>,
    message: MessageTextView,
    after: Seq<MessageTextView>,
)
    requires
        message.source != Some(MessageSource::ContextInjection),
    ensures
        (before.push(message) + after).filter(others(injected())) == before.filter(
            others(injected()),
        ).push(message) + after.filter(others(injected())),
        Seq::<MessageTextView>::empty().filter(others(injected())).len() == 0,
{
    let keep = others(injected());
    Seq::filter_distributes_over_add(before.push(message), after, keep);
    reveal(Seq::filter);
    assert(before.push(message).drop_last() =~= before);
}

/// Fences around a text go, and the text stays: between ` ```json ` and ` ``` `, between two
/// plain fences, or without any, with or without white space around it.
pub proof fn fences_are_stripped(body: Seq<char>, before: Seq<char>, after: Seq<char>)
    requires
        body.len() > 0,
        body[0] == '{',
        body.last() == '}',
        is_blank(before),
        is_blank(after),
    ensures
        unfenced(before + body + after) == body,
        unfenced("```json"@ + (before + body + after) + "```"@) == body,
        unfenced("```"@ + (before + body + after) + "```"@) == body,
{
    reveal_strlit("```json");
    reveal_strlit("```");
    let long = "```json"@;
    let short = "```"@;
    let inner = before + body + after;
    assert(long.len() == 7 && short.len() == 3);
    assert(long[0] == '`' && short[0] == '`' && long[3] == 'j' && short[2] == '`');
    assert(long[1] == '`' && long[2] == '`' && short[1] == '`');
    trimming_strips_white_space(before, body, after);
    // No fence at all.
    lemma_no_lead(body, long);
    lemma_no_lead(body, short);
    lemma_no_trail(body, short);
    lemma_trimmed_itself(body);
    assert(unfenced(inner) == body);
    // What stands between the fences.
    lemma_inner_is_no_fence(before, body, after);
    let closed = inner + short;
    assert(has_suffix(closed, short)) by {
        assert(closed.skip(closed.len() - 3) =~= short);
    }
    assert(closed.take(closed.len() - 3) =~= inner);
    assert(without_trailing(closed, short) == without_trailing(inner, short));
    assert(closed[0] == inner[0]);
    // A fence that names the language.
    let a = long + inner + short;
    assert(!white_space('`'));
    lemma_trimmed_itself(a);
    assert(a.take(7) =~= long);
    assert(a.skip(7) =~= closed);
    assert(has_prefix(a, long));
    assert(without_leading(a, long) == without_leading(closed, long));
    lemma_no_lead(closed, long);
    lemma_no_lead(closed, short);
    assert(unfenced(a) == body);
    // A plain fence.
    let b = short + inner + short;
    lemma_trimmed_itself(b);
    assert(b.take(3) =~= short);
    assert(b.skip(3) =~= closed);
    assert(!has_prefix(b, long)) by {
        if has_prefix(b, long) {
            assert(b.take(7)[3] == 'j');
            assert(b[3] == inner[0]);
            assert(inner[0] == 'j');
        }
    }
    assert(has_prefix(b, short));
    assert(without_leading(b, short) == without_leading(closed, short));
    assert(unfenced(b) == body);
}

/// Blanks and a JSON object begin and end with no fence.
proof fn lemma_inner_is_no_fence(before: Seq<char>, body: Seq<char>, after: Seq<char>)
    requires
        body.len() > 0,
        body[0] == '{',
        body.last() == '}',
        is_blank(before),
        is_blank(after),
    ensures
        ({
            let inner = before + body + after;
            &&& inner[0] != '`'
            &&& inner[0] != 'j'
            &&& inner.last() != '`'
            &&& without_trailing(inner, "```"@) == inner
        }),
{
    let inner = before + body + after;
    assert(!white_space('`') && !white_space('j'));
    if before.len() > 0 {
        assert(inner[0] == before[0]);
        assert(white_space(before[0]));
    } else {
        assert(inner[0] == body[0]);
    }
    if after.len() > 0 {
        assert(inner.last() == after.last());
        assert(white_space(after[after.len() - 1]));
    } else {
        assert(inner.last() == body.last());
    }
    lemma_no_trail(inner, "```"@);
}

/// A text that does not begin with a fence has none at its start.
proof fn lemma_no_lead(text: Seq<char>, part: Seq<char>)
    requires
        part == "```"@ || part == "```json"@,
        text.len() > 0,
        text[0] != '`',
    ensures
        without_leading(text, part) == text,
{
    reveal_strlit("```json");
    reveal_strlit("```");
    assert(part.len() > 0 && part[0] == '`');
    if has_prefix(text, part) {
        assert(text.take(part.len() as int)[0] == text[0]);
    }
}

/// A text that does not end with a fence has none at its end.
proof fn lemma_no_trail(text: Seq<char>, part: Seq<char>)
    requires
        part == "```"@,
        text.len() > 0,
        text.last() != '`',
    ensures
        without_trailing(text, part) == text,
{
    reveal_strlit("```");
    assert(part.len() == 3 && part[2] == '`');
    if has_suffix(text, part) {
        assert(text.skip(text.len() - 3)[2] == text.last());
    }
}

/// A text without white space at its ends stays as it is.
proof fn lemma_trimmed_itself(text: Seq<char>)
    requires
        text.len() > 0,
        !white_space(text[0]),
        !white_space(text.last()),
    ensures
        trimmed(text) == text,
{
    let none = Seq::<char>::empty();
    trimming_strips_white_space(none, text, none);
    assert(none + text + none =~= text);
}

/// An extraction is worth dreaming about exactly if one of its lists is not empty.
pub proof fn any_insight_counts(extraction: ExtractionView)
    ensures
        has_insight(extraction) <==> extraction.facts.len() + extraction.preferences.len()
            + extraction.decisions.len() + extraction.tasks.len() + extraction.open_items.len() > 0,
{
}

/// A dreamed topic goes into the memory of the user as it was dreamed, with its name, summary and
/// content, updated now; it expires at the instant that its expiry names, and never if it names
/// none.
pub proof fn dreamed_topic_is_kept_whole(user: UserId, topic: DreamTopicView, now: Timestamp)
    ensures
        ({
            let kept = memory_topic(user, topic, now);
            &&& kept.user_id == user
            &&& kept.topic == topic.topic
            &&& kept.summary == topic.summary
            &&& kept.content == topic.content
            &&& kept.updated_at == now
            &&& match topic.expires_at {
                Some(text) => match instant_read(text) {
                    Ok(at) => kept.expires_at == Some(at),
                    Err(_) => kept.expires_at is None,
                },
                None => kept.expires_at is None,
            }
        }),
{
}

/// Counting the attempts that succeeded.
pub proof fn successes_are_counted(outcomes: Seq<bool>)
    ensures
        successes(outcomes) == outcomes.filter(|ok: bool| ok).len(),
    decreases outcomes.len(),
{
    reveal(Seq::filter);
    if outcomes.len() > 0 {
        successes_are_counted(outcomes.drop_last());
    }
}

/// The persistence of a dream takes one step after the other: first each superseded topic, by its
/// name, in order; then each dreamed topic, with its fields, in order; each topic that was
/// written waits for its embedding before the next one is written.
pub proof fn persistence_goes_in_order(
    result: DreamResultView,
    embedding: bool,
    progress: Progress,
    ok: bool,
    now: Timestamp,
)
    ensures
        ({
            let deleted = progress.deletes.len() as int;
            let written = progress.writes.len() as int;
            let after = progressed(result, embedding, progress, ok);
            match next_action(result, now, progress) {
                ActionView::Delete { user_id, name } => {
                    &&& deleted < result.superseded_topics.len()
                    &&& user_id == result.user_id
                    &&& name == result.superseded_topics[deleted]
                    &&& after.deletes == progress.deletes.push(ok)
                    &&& after.writes == progress.writes
                    &&& after.embeds == progress.embeds
                    &&& after.waiting == progress.waiting
                },
                ActionView::Embed { owner, topic, content } => {
                    &&& deleted >= result.superseded_topics.len()
                    &&& progress.waiting
                    &&& owner == result.user_id
                    &&& topic == result.topics[written - 1].topic
                    &&& content == result.topics[written - 1].content
                    &&& after.deletes == progress.deletes
                    &&& after.writes == progress.writes
                    &&& after.embeds == progress.embeds.push(ok)
                    &&& !after.waiting
                },
                ActionView::Write(topic) => {
                    &&& deleted >= result.superseded_topics.len()
                    &&& !progress.waiting
                    &&& written < result.topics.len()
                    &&& topic.user_id == result.user_id
                    &&& topic.topic == result.topics[written].topic
                    &&& topic.summary == result.topics[written].summary
                    &&& topic.content == result.topics[written].content
                    &&& topic.updated_at == now
                    &&& after.deletes == progress.deletes
                    &&& after.writes == progress.writes.push(ok)
                    &&& after.embeds == progress.embeds
                    &&& after.waiting == (ok && embedding)
                },
                ActionView::Done(count) => {
                    &&& deleted >= result.superseded_topics.len()
                    &&& !progress.waiting
                    &&& written >= result.topics.len()
                    &&& count == progress.writes.filter(|ok: bool| ok).len()
                },
            }
        }),
{
    successes_are_counted(progress.writes);
}

/// A pass is over as soon as an answer was decoded, and when as many attempts were made as it may
/// make; before that it is not.
pub proof fn pass_ends_with_answer_or_limit(pass: DreamPass)
    ensures
        pass.is_over() <==> pass.answers().len() >= pass.limit() || exists|i: int|
            0 <= i < pass.answers().len() && !is_silent(#[trigger] pass.answers()[i]),
{
    assert forall|i: int| 0 <= i < pass.answers().len() implies is_silent(
        #[trigger] pass.answers()[i],
    ) == (answer_reply(pass.answers()[i]) is None) by {}
    if exists|i: int| 0 <= i < pass.answers().len() && !is_silent(#[trigger] pass.answers()[i]) {
        let i = choose|i: int|
            0 <= i < pass.answers().len() && !is_silent(#[trigger] pass.answers()[i]);
        assert(answer_reply(pass.answers()[i]) is Some);
    }
}

/// Of dreamed topics with one name the last counts.
pub proof fn last_topic_of_a_name_counts(
    topics: Seq<DreamTopicView>,
    topic: DreamTopicView,
    name: Seq<char>,
)
    ensures
        last_dreamed(topics.push(topic), name) == if topic.topic == name {
            Some(topic)
        } else {
            last_dreamed(topics, name)
        },
        last_dreamed(Seq::empty(), name) is None,
{
    assert(topics.push(topic).drop_last() =~= topics);
}

/// What is stated of a dream, a reply, a dreamed topic and a request speaks of their fields.
pub proof fn dreams_show_their_fields(
    result: DreamResult,
    reply: DreamResponse,
    topic: DreamTopic,
    request: CompletionRequest,
)
    ensures
        result@.topics == views(result.topics@),
        result@.user_id == result.user_id,
        result@.superseded_topics == texts(result.superseded_topics@),
        reply@.topics == views(reply.topics@),
        reply@.superseded == texts(reply.supersedes@),
        topic@.topic == topic.topic@,
        topic@.summary == topic.summary@,
        topic@.content == topic.content@,
        topic@.expires_at == optional_text(topic.expires_at),
        request@.model == request.model@,
        request@.prompt == request.prompt@,
        request@.max_tokens == request.max_tokens,
        request@.system == request.system@,
{
}

/// What is stated of a step of the persistence speaks of its fields.
pub proof fn actions_show_their_fields(action: PersistAction)
    ensures
        match action {
            PersistAction::Delete { user_id, name } => action@ == (ActionView::Delete {
                user_id,
                name: name@,
            }),
            PersistAction::Write(topic) => action@ == ActionView::Write(topic@),
            PersistAction::Embed { owner, topic, content } => action@ == (ActionView::Embed {
                owner,
                topic: topic@,
                content: content@,
            }),
            PersistAction::Done(written) => action@ == ActionView::Done(written as nat),
        },
{
}

} // verus!
