//! Mini-dream: extract and persist facts from messages being trimmed during overflow recovery.
//!
//! When the context window overflows and old messages must be dropped, this runs a
//! dream pass on the messages about to be removed so their content is preserved in
//! user memory before they are discarded: lossy truncation gives way to semantic
//! preservation.
//!
//! The caller gates it on `MemoryConfig::is_structured`.

use crate::dream::dreamer::{
    dream_prompt, dream_system, CompactionConfig, DreamPass, DreamResult, DreamResultView,
    RequestView,
};
use crate::dream::persist::{
    attempt_changes_rows, attempts_left, every_attempt_counts, every_topic_is_tried,
    lemma_all_done, rows_so_far, DreamPersist, PersistAction,
};
use crate::dream::response::{DreamTopic, DreamTopicView};
use crate::ids::UserId;
use crate::memory::extractions::{ExtractionView, SessionExtraction};
use crate::memory::substrate::{MemorySubstrate, SubstrateView};
use crate::memory::table::{by_key, distinct_by, kept_is_found, others, views};
use crate::memory::time::{instant_read, Timestamp};
use crate::memory::user_memory::{
    contents_at, topic_at, topic_key, upserted, visible, without_topic, MemoryTopic,
    TopicRowView, TopicView,
};
use crate::memory::user_memory_laws::{deleted_topic_is_gone, written_topic_is_read};
use crate::message::Message;
use vstd::prelude::*;

verus! {

/// Whether there is anything in an extraction.
pub open spec fn has_insight(extraction: ExtractionView) -> bool {
    extraction.facts.len() > 0 || extraction.preferences.len() > 0 || extraction.decisions.len()
        > 0 || extraction.tasks.len() > 0 || extraction.open_items.len() > 0
}

/// Whether an extraction is worth persisting: whether there is anything in it.
pub fn worth_dreaming(extraction: &SessionExtraction) -> (r: bool)
    ensures
        r == has_insight(extraction@),
{
    extraction.facts.len() > 0 || extraction.preferences.len() > 0 || extraction.decisions.len()
        > 0 || extraction.tasks.len() > 0 || extraction.open_items.len() > 0
}

/// Begin the dream pass on messages that are about to be trimmed, or `None` if there is nothing
/// to persist: no messages, no extraction because it failed, or nothing in it.
///
/// `recent_conversation` is the text of the messages that were not injected. The existing
/// topics of the user go into the prompt with their content.
pub fn begin_mini_dream(
    messages: &[Message],
    extraction: Option<&SessionExtraction>,
    recent_conversation: &str,
    user_id: UserId,
    model: &str,
    memory: &MemorySubstrate,
    config: &CompactionConfig,
    now: Timestamp,
) -> (r: Option<DreamPass>)
    requires
        config.max_summary_tokens * 2 <= u32::MAX,
    ensures
        r is Some <==> messages@.len() > 0 && extraction is Some && has_insight(extraction->0@),
        r matches Some(pass) ==> {
            &&& pass.extractions() == seq![extraction->0@]
            &&& pass.user() == user_id
            &&& pass.answers().len() == 0
            &&& pass.limit() == config.max_retries
            &&& pass.question() == (RequestView {
                model: model@,
                prompt: dream_prompt(
                    seq![extraction->0@],
                    recent_conversation@,
                    contents_at(memory@.topics, user_id, now),
                ),
                max_tokens: (config.max_summary_tokens * 2) as u32,
                system: dream_system(),
            })
        },
{
    if messages.len() == 0 {
        return None;
    }
    match extraction {
        Some(found) => {
            if !worth_dreaming(found) {
                return None;
            }
            let mut extractions: Vec<SessionExtraction> = Vec::new();
            extractions.push(found.clone());
            assert(views(extractions@) =~= seq![found@]);
            let existing: Vec<(String, String)> = memory.user_topic_contents_at(user_id, now);
            Some(
                DreamPass::new(
                    model,
                    extractions.as_slice(),
                    recent_conversation,
                    user_id,
                    existing.as_slice(),
                    config,
                ),
            )
        },
        None => None,
    }
}

/// The instant at which a dreamed topic expires; a text that names no instant means never.
pub open spec fn expiry(text: Option<Seq<char>>) -> Option<Timestamp> {
    match text {
        Some(t) => match instant_read(t) {
            Ok(at) => Some(at),
            Err(_) => None,
        },
        None => None,
    }
}

/// The memory topic that a dreamed topic becomes.
pub open spec fn memory_topic(user: UserId, topic: DreamTopicView, now: Timestamp) -> TopicView {
    TopicView {
        user_id: user,
        topic: topic.topic,
        summary: topic.summary,
        content: topic.content,
        updated_at: now,
        expires_at: expiry(topic.expires_at),
    }
}

/// The memory topic that a dreamed topic becomes.
pub(crate) fn write_topic(user_id: UserId, topic: &DreamTopic, now: Timestamp) -> (r: MemoryTopic)
    ensures
        r@ == memory_topic(user_id, topic@, now),
{
    let expires_at: Option<Timestamp> = match &topic.expires_at {
        Some(text) => match Timestamp::parse(text.as_str()) {
            Ok(at) => Some(at),
            Err(_) => None,
        },
        None => None,
    };
    MemoryTopic {
        user_id,
        topic: topic.topic.clone(),
        summary: topic.summary.clone(),
        content: topic.content.clone(),
        updated_at: now,
        expires_at,
    }
}

/// The topics after those that are superseded were deleted.
pub open spec fn forgotten(
    rows: Seq<TopicRowView>,
    user: UserId,
    names: Seq<Seq<char>>,
) -> Seq<TopicRowView>
    decreases names.len(),
{
    if names.len() == 0 {
        rows
    } else {
        without_topic(forgotten(rows, user, names.drop_last()), user, names.last())
    }
}

/// The topics after dreamed ones were written, one after the other.
pub open spec fn remembered(
    rows: Seq<TopicRowView>,
    user: UserId,
    topics: Seq<DreamTopicView>,
    now: Timestamp,
) -> Seq<TopicRowView>
    decreases topics.len(),
{
    if topics.len() == 0 {
        rows
    } else {
        upserted(
            remembered(rows, user, topics.drop_last(), now),
            memory_topic(user, topics.last(), now),
        )
    }
}

/// The topics after a dream was persisted: the superseded ones are deleted, then the dreamed
/// ones are written.
pub open spec fn after_dream(
    rows: Seq<TopicRowView>,
    result: DreamResultView,
    now: Timestamp,
) -> Seq<TopicRowView> {
    remembered(
        forgotten(rows, result.user_id, result.superseded_topics),
        result.user_id,
        result.topics,
        now,
    )
}

/// Delete superseded topics, then write new ones, in a memory in which this cannot fail. Returns
/// the number of memory topics written. Where it can fail, see `DreamPersist`.
pub fn persist_dream(memory: &mut MemorySubstrate, result: &DreamResult, now: Timestamp) -> (r:
    usize)
    ensures
        r == result@.topics.len(),
        final(memory)@ == (SubstrateView {
            topics: after_dream(old(memory)@.topics, result@, now),
            ..old(memory)@
        }),
{
    let ghost before = memory@;
    let ghost wanted = result@;
    let mut pass: DreamPersist = DreamPersist::new(result.clone(), now, false);
    proof {
        lemma_all_done(wanted.superseded_topics, Seq::empty());
        lemma_all_done(wanted.topics, Seq::empty());
        assert(wanted.superseded_topics.take(0) =~= Seq::empty());
        assert(wanted.topics.take(0) =~= Seq::empty());
        assert(rows_so_far(before.topics, wanted, now, pass.progress()) == before.topics);
    }
    loop
        invariant
            wanted == result@,
            pass.result() == wanted,
            pass.instant() == now,
            !pass.embeds(),
            forall|i: int|
                0 <= i < pass.progress().deletes.len() ==> #[trigger] pass.progress().deletes[i],
            forall|i: int|
                0 <= i < pass.progress().writes.len() ==> #[trigger] pass.progress().writes[i],
            before == old(memory)@,
            memory@ == (SubstrateView {
                topics: rows_so_far(before.topics, wanted, now, pass.progress()),
                ..before
            }),
        decreases attempts_left(wanted, pass.progress()),
    {
        let ghost progress = pass.progress();
        let action: PersistAction = pass.action();
        proof {
            if !(pass.next() is Done) {
                every_attempt_counts(wanted, false, progress, true, now);
                attempt_changes_rows(before.topics, wanted, false, progress, true, now);
            }
        }
        match action {
            PersistAction::Delete { user_id, name } => {
                let ok: bool = match memory.delete_user_topic(user_id, name.as_str()) {
                    Ok(()) => true,
                    Err(_) => false,
                };
                pass = pass.outcome(ok);
            },
            PersistAction::Write(topic) => {
                let ok: bool = match memory.upsert_user_topic(&topic) {
                    Ok(()) => true,
                    Err(_) => false,
                };
                pass = pass.outcome(ok);
            },
            PersistAction::Embed { .. } => {
                pass = pass.outcome(false);
            },
            PersistAction::Done(written) => {
                proof {
                    every_topic_is_tried(wanted, false, progress, now);
                    lemma_all_done(wanted.superseded_topics, progress.deletes);
                    lemma_all_done(wanted.topics, progress.writes);
                    assert(wanted.superseded_topics.take(wanted.superseded_topics.len() as int)
                        =~= wanted.superseded_topics);
                    assert(wanted.topics.take(wanted.topics.len() as int) =~= wanted.topics);
                }
                return written;
            },
        }
    }
}

/// The last of the dreamed topics with a name.
pub open spec fn last_dreamed(topics: Seq<DreamTopicView>, name: Seq<char>) -> Option<
    DreamTopicView,
>
    decreases topics.len(),
{
    if topics.len() == 0 {
        None
    } else if topics.last().topic == name {
        Some(topics.last())
    } else {
        last_dreamed(topics.drop_last(), name)
    }
}

/// Deleting superseded topics makes each of them disappear, and nothing else.
proof fn lemma_forgotten(
    rows: Seq<TopicRowView>,
    user: UserId,
    names: Seq<Seq<char>>,
    other: UserId,
    topic: Seq<char>,
    at: Timestamp,
)
    requires
        distinct_by(rows, topic_key()),
    ensures
        distinct_by(forgotten(rows, user, names), topic_key()),
        topic_at(forgotten(rows, user, names), other, topic, at) == if other == user
            && names.contains(topic) {
            None
        } else {
            topic_at(rows, other, topic, at)
        },
    decreases names.len(),
{
    if names.len() > 0 {
        let front = names.drop_last();
        lemma_forgotten(rows, user, front, other, topic, at);
        let so_far = forgotten(rows, user, front);
        deleted_topic_is_gone(so_far, user, names.last(), other, topic, at);
        kept_is_found(
            so_far,
            topic_key(),
            others(by_key(topic_key(), (user, names.last()))),
            (other, topic),
        );
        assert(names == front.push(names.last()));
        assert(names.contains(topic) <==> front.contains(topic) || topic == names.last()) by {
            if front.contains(topic) {
                let i = choose|i: int| 0 <= i < front.len() && front[i] == topic;
                assert(names[i] == topic);
            }
            if topic == names.last() {
                assert(names[names.len() - 1] == topic);
            }
            if names.contains(topic) {
                let i = choose|i: int| 0 <= i < names.len() && names[i] == topic;
                if i < front.len() {
                    assert(front[i] == topic);
                }
            }
        }
    }
}

/// Writing dreamed topics makes each name show the last topic with it, and changes nothing else.
proof fn lemma_remembered(
    rows: Seq<TopicRowView>,
    user: UserId,
    topics: Seq<DreamTopicView>,
    now: Timestamp,
    other: UserId,
    topic: Seq<char>,
    at: Timestamp,
)
    requires
        distinct_by(rows, topic_key()),
    ensures
        distinct_by(remembered(rows, user, topics, now), topic_key()),
        topic_at(remembered(rows, user, topics, now), other, topic, at) == match last_dreamed(
            topics,
            topic,
        ) {
            Some(t) if other == user => if visible(memory_topic(user, t, now), at) {
                Some(memory_topic(user, t, now))
            } else {
                None
            },
            _ => topic_at(rows, other, topic, at),
        },
    decreases topics.len(),
{
    if topics.len() > 0 {
        let front = topics.drop_last();
        lemma_remembered(rows, user, front, now, other, topic, at);
        written_topic_is_read(
            remembered(rows, user, front, now),
            memory_topic(user, topics.last(), now),
            other,
            topic,
            at,
        );
    }
}

/// What is read after a dream was persisted. A dreamed topic is read as it was dreamed (the last
/// one, if two have one name) until it expires, also when it was superseded too; a topic that was
/// superseded and not dreamed is gone; every other topic, and every topic of another user, is as
/// before.
pub proof fn dream_is_remembered(
    rows: Seq<TopicRowView>,
    result: DreamResultView,
    now: Timestamp,
    user: UserId,
    topic: Seq<char>,
    at: Timestamp,
)
    requires
        distinct_by(rows, topic_key()),
    ensures
        distinct_by(after_dream(rows, result, now), topic_key()),
        topic_at(after_dream(rows, result, now), user, topic, at) == if user != result.user_id {
            topic_at(rows, user, topic, at)
        } else {
            match last_dreamed(result.topics, topic) {
                Some(t) => if visible(memory_topic(user, t, now), at) {
                    Some(memory_topic(user, t, now))
                } else {
                    None
                },
                None => if result.superseded_topics.contains(topic) {
                    None
                } else {
                    topic_at(rows, user, topic, at)
                },
            }
        },
{
    let kept = forgotten(rows, result.user_id, result.superseded_topics);
    lemma_forgotten(rows, result.user_id, result.superseded_topics, user, topic, at);
    lemma_remembered(kept, result.user_id, result.topics, now, user, topic, at);
}

} // verus!
