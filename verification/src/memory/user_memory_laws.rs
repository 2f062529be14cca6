//! Laws of the per-user memory.

use crate::ids::UserId;
use crate::memory::table::{
    by_key, comes_first, distinct_by, found_has_key, kept_is_found, kept_twice, others,
    row_is_found, selection, selection_holds_picked, selection_is_sorted, stored_is_found,
};
use crate::memory::time::Timestamp;
use crate::memory::user_memory::{
    contents_at, expired, index_at, of_user, seen_by, topic_at, topic_key, topic_name, topic_row, upserted,
    visible, with_embedding, without_topic, TopicRowView, TopicView,
};
use crate::text::{text_less, text_order_is_total};
use vstd::prelude::*;

verus! {

/// A topic that was written is read back as it was written, as long as it has not expired; and
/// writing it changes no other topic, of this user or another.
pub proof fn written_topic_is_read(
    rows: Seq<TopicRowView>,
    written: TopicView,
    user: UserId,
    topic: Seq<char>,
    now: Timestamp,
)
    requires
        distinct_by(rows, topic_key()),
    ensures
        distinct_by(upserted(rows, written), topic_key()),
        topic_at(upserted(rows, written), user, topic, now) == if user == written.user_id && topic
            == written.topic {
            if visible(written, now) {
                Some(written)
            } else {
                None
            }
        } else {
            topic_at(rows, user, topic, now)
        },
{
    let embedding = match topic_row(rows, written.user_id, written.topic) {
        Some(row) => row.embedding,
        None => None,
    };
    let row = TopicRowView { topic: written, embedding };
    stored_is_found(rows, topic_key(), row, (user, topic));
}

/// Writing a topic again keeps its embedding; a new topic has none.
pub proof fn writing_keeps_embedding(rows: Seq<TopicRowView>, written: TopicView)
    requires
        distinct_by(rows, topic_key()),
    ensures
        topic_row(upserted(rows, written), written.user_id, written.topic) == Some(
            TopicRowView {
                topic: written,
                embedding: match topic_row(rows, written.user_id, written.topic) {
                    Some(row) => row.embedding,
                    None => None,
                },
            },
        ),
{
    let embedding = match topic_row(rows, written.user_id, written.topic) {
        Some(row) => row.embedding,
        None => None,
    };
    let row = TopicRowView { topic: written, embedding };
    stored_is_found(rows, topic_key(), row, (written.user_id, written.topic));
}

/// Setting an embedding changes no topic, and none appears.
pub proof fn embedding_changes_no_topic(
    rows: Seq<TopicRowView>,
    user: UserId,
    topic: Seq<char>,
    embedding: Seq<u8>,
    other_user: UserId,
    other: Seq<char>,
    now: Timestamp,
)
    requires
        distinct_by(rows, topic_key()),
    ensures
        topic_at(with_embedding(rows, user, topic, embedding), other_user, other, now) == topic_at(
            rows,
            other_user,
            other,
            now,
        ),
        (topic_row(rows, user, topic) matches Some(row) ==> topic_row(
            with_embedding(rows, user, topic, embedding),
            user,
            topic,
        ) == Some(TopicRowView { embedding: Some(embedding), ..row })),
{
    found_has_key(rows, topic_key(), (user, topic));
    match topic_row(rows, user, topic) {
        Some(row) => {
            let now_row = TopicRowView { embedding: Some(embedding), ..row };
            stored_is_found(rows, topic_key(), now_row, (other_user, other));
            stored_is_found(rows, topic_key(), now_row, (user, topic));
        },
        None => {},
    }
}

/// A deleted topic is gone, and no other topic is.
pub proof fn deleted_topic_is_gone(
    rows: Seq<TopicRowView>,
    user: UserId,
    topic: Seq<char>,
    other_user: UserId,
    other: Seq<char>,
    now: Timestamp,
)
    requires
        distinct_by(rows, topic_key()),
    ensures
        topic_at(without_topic(rows, user, topic), other_user, other, now) == if other_user == user
            && other == topic {
            None
        } else {
            topic_at(rows, other_user, other, now)
        },
        without_topic(without_topic(rows, user, topic), user, topic) == without_topic(
            rows,
            user,
            topic,
        ),
{
    let keep = others(by_key(topic_key(), (user, topic)));
    kept_is_found(rows, topic_key(), keep, (other_user, other));
    found_has_key(rows, topic_key(), (other_user, other));
    kept_twice(rows, keep);
}

/// Deleting the memory of a user deletes all of it, and nothing of another user.
pub proof fn deleted_user_is_forgotten(
    rows: Seq<TopicRowView>,
    user: UserId,
    other_user: UserId,
    topic: Seq<char>,
    now: Timestamp,
)
    requires
        distinct_by(rows, topic_key()),
    ensures
        topic_at(rows.filter(others(of_user(user))), other_user, topic, now) == if other_user
            == user {
            None
        } else {
            topic_at(rows, other_user, topic, now)
        },
        rows.filter(others(of_user(user))).filter(others(of_user(user))) == rows.filter(
            others(of_user(user)),
        ),
{
    kept_is_found(rows, topic_key(), others(of_user(user)), (other_user, topic));
    found_has_key(rows, topic_key(), (other_user, topic));
    kept_twice(rows, others(of_user(user)));
}

/// A topic that has expired stays expired.
pub proof fn expiry_is_final(topic: TopicView, now: Timestamp, later: Timestamp)
    requires
        now.seconds <= later.seconds,
        !visible(topic, now),
    ensures
        !visible(topic, later),
{
}

/// Pruning changes nothing that is read then or later.
pub proof fn pruning_is_not_seen(
    rows: Seq<TopicRowView>,
    user: UserId,
    now: Timestamp,
    other_user: UserId,
    topic: Seq<char>,
    later: Timestamp,
)
    requires
        distinct_by(rows, topic_key()),
        now.seconds <= later.seconds,
    ensures
        topic_at(rows.filter(others(expired(user, now))), other_user, topic, later) == topic_at(
            rows,
            other_user,
            topic,
            later,
        ),
{
    kept_is_found(rows, topic_key(), others(expired(user, now)), (other_user, topic));
}

/// The index names every topic that can be read, and no other.
pub proof fn index_names_what_is_read(
    rows: Seq<TopicRowView>,
    user: UserId,
    topic: Seq<char>,
    now: Timestamp,
)
    requires
        distinct_by(rows, topic_key()),
    ensures
        (exists|i: int|
            0 <= i < index_at(rows, user, now).len() && (#[trigger] index_at(
                rows,
                user,
                now,
            )[i]).topic == topic) <==> topic_at(rows, user, topic, now) is Some,
        forall|i: int|
            0 <= i < index_at(rows, user, now).len() ==> {
                let entry = #[trigger] index_at(rows, user, now)[i];
                topic_at(rows, user, entry.topic, now) matches Some(t) && entry.summary == t.summary
                    && entry.updated_at == t.updated_at
            },
{
    let pick = seen_by(user, now);
    let chosen = selection(rows, pick, topic_name(), false);
    let index = index_at(rows, user, now);
    assert forall|i: int| 0 <= i < index.len() implies {
        let entry = #[trigger] index[i];
        topic_at(rows, user, entry.topic, now) matches Some(t) && entry.summary == t.summary
            && entry.updated_at == t.updated_at
    } by {
        let row = chosen[i];
        selection_holds_picked(rows, pick, topic_name(), false, row);
        assert(chosen.contains(row));
        let at = choose|p: int| 0 <= p < rows.len() && rows[p] == row;
        row_is_found(rows, topic_key(), at);
    }
    if topic_at(rows, user, topic, now) is Some {
        found_has_key(rows, topic_key(), (user, topic));
        let row = topic_row(rows, user, topic).unwrap();
        assert(pick(row));
        selection_holds_picked(rows, pick, topic_name(), false, row);
        let i = choose|i: int| 0 <= i < chosen.len() && chosen[i] == row;
        assert(index[i].topic == topic);
    }
}

/// The contents are those of the topics that the index names, in its order.
pub proof fn contents_follow_index(rows: Seq<TopicRowView>, user: UserId, now: Timestamp)
    requires
        distinct_by(rows, topic_key()),
    ensures
        contents_at(rows, user, now).len() == index_at(rows, user, now).len(),
        forall|i: int|
            0 <= i < contents_at(rows, user, now).len() ==> {
                let pair = #[trigger] contents_at(rows, user, now)[i];
                pair.0 == index_at(rows, user, now)[i].topic && (topic_at(
                    rows,
                    user,
                    pair.0,
                    now,
                ) matches Some(t) && pair.1 == t.content)
            },
{
    let pick = seen_by(user, now);
    let chosen = selection(rows, pick, topic_name(), false);
    let contents = contents_at(rows, user, now);
    assert forall|i: int| 0 <= i < contents.len() implies {
        let pair = #[trigger] contents[i];
        pair.0 == index_at(rows, user, now)[i].topic && (topic_at(
            rows,
            user,
            pair.0,
            now,
        ) matches Some(t) && pair.1 == t.content)
    } by {
        let row = chosen[i];
        selection_holds_picked(rows, pick, topic_name(), false, row);
        assert(chosen.contains(row));
        let at = choose|p: int| 0 <= p < rows.len() && rows[p] == row;
        row_is_found(rows, topic_key(), at);
    }
}

/// The index is sorted by name, and no name occurs twice.
pub proof fn index_is_sorted(rows: Seq<TopicRowView>, user: UserId, now: Timestamp)
    requires
        distinct_by(rows, topic_key()),
    ensures
        forall|i: int, j: int|
            0 <= i < j < index_at(rows, user, now).len() ==> text_less(
                (#[trigger] index_at(rows, user, now)[i]).topic,
                (#[trigger] index_at(rows, user, now)[j]).topic,
            ),
{
    let pick = seen_by(user, now);
    let chosen = selection(rows, pick, topic_name(), false);
    let index = index_at(rows, user, now);
    selection_is_sorted(rows, pick, topic_name(), false, topic_key());
    assert forall|i: int, j: int| 0 <= i < j < index.len() implies text_less(
        (#[trigger] index[i]).topic,
        (#[trigger] index[j]).topic,
    ) by {
        let a = chosen[i];
        let b = chosen[j];
        selection_holds_picked(rows, pick, topic_name(), false, a);
        selection_holds_picked(rows, pick, topic_name(), false, b);
        assert(chosen.contains(a) && chosen.contains(b));
        assert(topic_key()(chosen[i]) != topic_key()(chosen[j]));
        assert(!comes_first(topic_name()(chosen[j]), topic_name()(chosen[i]), false));
        text_order_is_total(a.topic.topic, b.topic.topic);
    }
}

} // verus!
