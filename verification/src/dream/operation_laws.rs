//! Laws of what the operations of a dream give back.

use crate::dream::dream_laws::{
    dreamed_topic_is_kept_whole, fallback_keeps_every_list, fallback_tells_every_list,
    first_reply_is_the_dream, has_labelled, is_silent, prompt_tells_one_extraction, told, under,
};
use crate::dream::dreamer::{
    build_fallback_content, conversation_messages, injected, Answer, CompactionConfig, DreamAction,
    DreamPass, DreamResult,
};
use crate::dream::mini_dream::{begin_mini_dream, dream_is_remembered, last_dreamed, persist_dream};
use crate::dream::response::{DreamResponse, DreamTopicView, ReplyView};
use crate::ids::UserId;
use crate::memory::extractions::SessionExtraction;
use crate::memory::substrate::MemorySubstrate;
use crate::memory::table::{distinct_by, others, views};
use crate::memory::time::{instant_read, Timestamp};
use crate::memory::user_memory::{contents_at, text_pairs, topic_key, MemoryTopic};
use crate::message::{Message, MessageSource};
use crate::text::{joined, texts};
use vstd::prelude::*;

verus! {

/// A pass over one extraction asks the given model, for twice the length of a summary, with a
/// prompt that has each list of the extraction directly behind the label of that list, and the
/// recent conversation behind its own.
pub proof fn question_tells_extraction(
    model: &str,
    extractions: &[SessionExtraction],
    recent: &str,
    user: UserId,
    existing: &[(String, String)],
    config: &CompactionConfig,
    pass: DreamPass,
)
    requires
        config.max_summary_tokens * 2 <= u32::MAX,
        extractions@.len() == 1,
        call_ensures(DreamPass::new, (model, extractions, recent, user, existing, config), pass),
    ensures
        ({
            let e = extractions@[0];
            let prompt = pass.question().prompt;
            &&& has_labelled(prompt, "Facts: "@, told(texts(e.facts@)), "\nPreferences: "@)
            &&& has_labelled(
                prompt,
                "\nPreferences: "@,
                told(texts(e.preferences@)),
                "\nDecisions: "@,
            )
            &&& has_labelled(
                prompt,
                "\nDecisions: "@,
                told(texts(e.decisions@)),
                "\nTasks completed: "@,
            )
            &&& has_labelled(
                prompt,
                "\nTasks completed: "@,
                told(texts(e.tasks@)),
                "\nOpen items: "@,
            )
            &&& has_labelled(
                prompt,
                "\nOpen items: "@,
                told(texts(e.open_items@)),
                "\n\nRecent conversation:\n"@,
            )
            &&& has_labelled(
                prompt,
                "\n\nRecent conversation:\n"@,
                recent@,
                "\n\nExisting memory topics (full content — check for contradictions):\n"@,
            )
        }),
        pass.question().model == model@,
        pass.question().max_tokens == 2 * config.max_summary_tokens,
        pass.user() == user,
        pass.limit() == config.max_retries,
        pass.answers().len() == 0,
{
    assert(views(extractions@) =~= seq![extractions@[0]@]);
    prompt_tells_one_extraction(
        extractions@[0]@,
        recent@,
        text_pairs(existing@),
    );
}

/// The fallback content has each list that is not empty under its own heading, in a line of its
/// own.
pub proof fn fallback_content_tells_lists(
    facts: &[String],
    preferences: &[String],
    decisions: &[String],
    tasks: &[String],
    open_items: &[String],
    content: String,
)
    requires
        call_ensures(
            build_fallback_content,
            (facts, preferences, decisions, tasks, open_items),
            content,
        ),
    ensures
        if facts@.len() + preferences@.len() + decisions@.len() + tasks@.len() + open_items@.len()
            == 0 {
            content@ == "No structured information extracted from this session."@
        } else {
            content@ == joined(
                under("Facts: "@, texts(facts@)) + under("Preferences: "@, texts(preferences@))
                    + under("Decisions: "@, texts(decisions@)) + under("Tasks: "@, texts(tasks@))
                    + under("Open items: "@, texts(open_items@)),
                "\n"@,
            )
        },
{
    fallback_tells_every_list(
        texts(facts@),
        texts(preferences@),
        texts(decisions@),
        texts(tasks@),
        texts(open_items@),
    );
}

/// A pass to which a reply was decoded after nothing but failures ends with the topics of that
/// reply, all of them, and with the names that it supersedes, for its user.
pub proof fn decoded_reply_is_the_result(
    before: DreamPass,
    reply: DreamResponse,
    after: DreamPass,
    result: DreamResult,
)
    requires
        forall|i: int|
            0 <= i < before.answers().len() ==> is_silent(#[trigger] before.answers()[i]),
        before.pending() matches Some(text) && text.len() > 0,
        call_ensures(DreamPass::decoded, (before, Some(reply)), after),
        call_ensures(DreamPass::action, (&after,), DreamAction::Done(result)),
    ensures
        views(result.topics@) == views(reply.topics@),
        texts(result.superseded_topics@) == texts(reply.supersedes@),
        result.user_id == before.user(),
{
    first_reply_is_the_dream(
        after.extractions(),
        after.user(),
        before.answers(),
        before.pending()->0,
        reply@,
        Seq::empty(),
    );
    let answer = Answer::Text {
        text: before.pending()->0,
        decoded: Some(reply@),
    };
    assert(before.answers().push(answer) + Seq::<Answer>::empty()
        =~= after.answers());
}

/// A pass that has failed as often as it may ends with one topic `general` of its user, which
/// supersedes nothing and never expires.
pub proof fn failed_pass_falls_back(pass: DreamPass, result: DreamResult)
    requires
        forall|i: int| 0 <= i < pass.answers().len() ==> is_silent(#[trigger] pass.answers()[i]),
        call_ensures(DreamPass::action, (&pass,), DreamAction::Done(result)),
    ensures
        result.topics@.len() == 1,
        result.topics@[0].topic@ == "general"@,
        result.topics@[0].summary@
            == "General session memory (dream consolidation unavailable)"@,
        result.topics@[0].expires_at is None,
        result.superseded_topics@.len() == 0,
        result.user_id == pass.user(),
{
    first_reply_is_the_dream(
        pass.extractions(),
        pass.user(),
        pass.answers(),
        seq!['x'],
        ReplyView { topics: Seq::empty(), superseded: Seq::empty() },
        Seq::empty(),
    );
    fallback_keeps_every_list(pass.extractions(), pass.user());
    assert(result@.topics.len() == result.topics@.len());
    assert(result@.topics[0] == result.topics@[0]@);
    assert(result@.superseded_topics.len() == result.superseded_topics@.len());
}

/// The messages of a conversation are kept, in order, but for those that were put in as context.
pub proof fn injected_messages_are_dropped(messages: &[Message], kept: Vec<Message>, i: int)
    requires
        call_ensures(conversation_messages, (messages,), kept),
        0 <= i < messages@.len(),
    ensures
        views(kept@).contains(messages@[i]@) <==> messages@[i].source != Some(
            MessageSource::ContextInjection,
        ),
        forall|k: int|
            0 <= k < kept@.len() ==> (#[trigger] kept@[k]).source != Some(
                MessageSource::ContextInjection,
            ),
{
    broadcast use vstd::seq_lib::group_filter_ensures;

    let all = views(messages@);
    let keep = others(injected());
    let left = all.filter(keep);
    assert(all[i] == messages@[i]@);
    assert forall|k: int| 0 <= k < kept@.len() implies (#[trigger] kept@[k]).source != Some(
        MessageSource::ContextInjection,
    ) by {
        assert(left[k] == kept@[k]@);
        assert(keep(left[k]));
    }
    if left.contains(all[i]) {
        let k = choose|k: int| 0 <= k < left.len() && left[k] == all[i];
        assert(keep(left[k]));
    }
    if keep(all[i]) {
        assert(left.contains(all[i]));
    }
}

/// A mini-dream begins exactly if there are messages and an extraction with something in it; and
/// its prompt tells the extraction and the existing topics of the user.
pub proof fn mini_dream_needs_insight(
    messages: &[Message],
    extraction: Option<&SessionExtraction>,
    recent: &str,
    user: UserId,
    model: &str,
    memory: &MemorySubstrate,
    config: &CompactionConfig,
    now: Timestamp,
    r: Option<DreamPass>,
)
    requires
        config.max_summary_tokens * 2 <= u32::MAX,
        call_ensures(
            begin_mini_dream,
            (messages, extraction, recent, user, model, memory, config, now),
            r,
        ),
    ensures
        r is Some <==> messages@.len() > 0 && (extraction matches Some(e) && e.facts@.len()
            + e.preferences@.len() + e.decisions@.len() + e.tasks@.len() + e.open_items@.len() > 0),
        r matches Some(pass) ==> pass.user() == user && (extraction matches Some(e)
            && has_labelled(
            pass.question().prompt,
            "\nTasks completed: "@,
            told(texts(e.tasks@)),
            "\nOpen items: "@,
        )),
{
    if let Some(e) = extraction {
        prompt_tells_one_extraction(
            e@,
            recent@,
            contents_at(memory@.topics, user, now),
        );
    }
}

/// A topic that was dreamed, and is the last of its name, is read after the dream was persisted,
/// with its name, its summary and its content, until its expiry if that names an instant.
pub proof fn persisted_topic_is_read(
    before: &mut MemorySubstrate,
    after: &MemorySubstrate,
    result: &DreamResult,
    now: Timestamp,
    count: usize,
    i: int,
    name: &str,
    at: Timestamp,
    got: Option<MemoryTopic>,
)
    requires
        distinct_by(old(before)@.topics, topic_key()),
        call_ensures(persist_dream, (before, result, now), count),
        after@ == final(before)@,
        0 <= i < result.topics@.len(),
        forall|k: int|
            i < k < result.topics@.len() ==> (#[trigger] result.topics@[k]).topic@
                != result.topics@[i].topic@,
        name@ == result.topics@[i].topic@,
        call_ensures(MemorySubstrate::user_topic_at, (after, result.user_id, name, at), got),
    ensures
        count == result.topics@.len(),
        ({
            let topic = result.topics@[i];
            let expiry = match topic.expires_at {
                Some(text) => match instant_read(text@) {
                    Ok(instant) => Some(instant),
                    Err(_) => None,
                },
                None => None,
            };
            match expiry {
                Some(instant) if instant.seconds <= at.seconds => got is None,
                _ => got matches Some(t) && {
                    &&& t.user_id == result.user_id
                    &&& t.topic@ == topic.topic@
                    &&& t.summary@ == topic.summary@
                    &&& t.content@ == topic.content@
                    &&& t.updated_at == now
                    &&& t.expires_at == expiry
                },
            }
        }),
{
    let topics = views(result.topics@);
    lemma_last_of_name(topics, i);
    dream_is_remembered(old(before)@.topics, result@, now, result.user_id, name@, at);
    assert(topics[i] == result.topics@[i]@);
    dreamed_topic_is_kept_whole(result.user_id, topics[i], now);
}

/// The last topic of a name is the one that counts.
proof fn lemma_last_of_name(topics: Seq<DreamTopicView>, i: int)
    requires
        0 <= i < topics.len(),
        forall|k: int| i < k < topics.len() ==> (#[trigger] topics[k]).topic != topics[i].topic,
    ensures
        last_dreamed(topics, topics[i].topic) == Some(topics[i]),
    decreases topics.len(),
{
    let last = topics.len() - 1;
    if i < last {
        let front = topics.drop_last();
        assert forall|k: int| i < k < front.len() implies (#[trigger] front[k]).topic
            != front[i].topic by {
            assert(front[k] == topics[k]);
        }
        lemma_last_of_name(front, i);
        assert(topics[last].topic != topics[i].topic);
    }
}

} // verus!
