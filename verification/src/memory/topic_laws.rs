//! Laws of memory topics, stated on the stored rows: what is read, indexed, embedded and pruned.

use crate::ids::{AgentId, UserId};
use crate::memory::table::{
    by_key, distinct_by, first_finds, found_has_key, others, row_is_found, selection,
    selection_holds_picked,
};
use crate::memory::time::Timestamp;
use crate::memory::user_agent_memory::{
    agent_index, agent_topic, agent_topic_key, agent_topic_name, of_any_agent, of_pair,
    AgentTopicView, UserAgentMemoryTopic, UserAgentTopicIndexEntry,
};
use crate::memory::user_memory::{
    contents_at, embedded, expired, index_at, of_user, seen_by, topic_at, topic_key, topic_name,
    MemoryTopic, TopicIndexEntry, TopicRow, TopicRowView,
};
use vstd::prelude::*;

verus! {

/// What is stated of a topic, of its row and of its index entry speaks of their fields.
pub proof fn topics_show_their_fields(topic: MemoryTopic, row: TopicRow, entry: TopicIndexEntry)
    ensures
        topic@.user_id == topic.user_id,
        topic@.topic == topic.topic@,
        topic@.summary == topic.summary@,
        topic@.content == topic.content@,
        topic@.updated_at == topic.updated_at,
        topic@.expires_at == topic.expires_at,
        row@.topic == row.topic@,
        match row.embedding {
            Some(bytes) => row@.embedding == Some(bytes@),
            None => row@.embedding is None,
        },
        entry@.topic == entry.topic@,
        entry@.summary == entry.summary@,
        entry@.updated_at == entry.updated_at,
{
}

/// What is stated of a topic of a user and an agent, and of its index entry, speaks of their
/// fields.
pub proof fn agent_topics_show_their_fields(
    topic: UserAgentMemoryTopic,
    entry: UserAgentTopicIndexEntry,
)
    ensures
        topic@.user_id == topic.user_id,
        topic@.agent_id == topic.agent_id,
        topic@.topic == topic.topic@,
        topic@.summary == topic.summary@,
        topic@.content == topic.content@,
        topic@.updated_at == topic.updated_at,
        entry@.topic == entry.topic@,
        entry@.summary == entry.summary@,
        entry@.updated_at == entry.updated_at,
{
}

/// A stored topic is read under its user and name until the second of its expiry, and from then
/// on it is not; one without an expiry is always read.
pub proof fn stored_topic_is_read_until_expiry(rows: Seq<TopicRowView>, p: int, now: Timestamp)
    requires
        distinct_by(rows, topic_key()),
        0 <= p < rows.len(),
    ensures
        ({
            let topic = rows[p].topic;
            topic_at(rows, topic.user_id, topic.topic, now) == match topic.expires_at {
                Some(at) if at.seconds <= now.seconds => None,
                _ => Some(topic),
            }
        }),
{
    row_is_found(rows, topic_key(), p);
}

/// What is read under a user and a name is a stored topic of that user with that name.
pub proof fn read_topic_is_stored(
    rows: Seq<TopicRowView>,
    user: UserId,
    name: Seq<char>,
    now: Timestamp,
)
    ensures
        topic_at(rows, user, name, now) matches Some(topic) ==> topic.user_id == user
            && topic.topic == name && exists|p: int|
            0 <= p < rows.len() && (#[trigger] rows[p]).topic == topic,
{
    found_has_key(rows, topic_key(), (user, name));
    first_finds(rows, by_key(topic_key(), (user, name)));
}

/// Pruning deletes the topics of the user whose expiry has passed, with all of them, and no other.
pub proof fn pruning_deletes_what_expired(
    rows: Seq<TopicRowView>,
    user: UserId,
    now: Timestamp,
    row: TopicRowView,
)
    ensures
        rows.filter(others(expired(user, now))).contains(row) <==> rows.contains(row) && !(
        row.topic.user_id == user && (row.topic.expires_at matches Some(at) && at.seconds
            <= now.seconds)),
{
    lemma_filter_contains(rows, others(expired(user, now)), row);
}

/// Deleting the memory of a user deletes every row of the user, seen or expired, and no other.
pub proof fn deletion_takes_rows_of_user(rows: Seq<TopicRowView>, user: UserId, row: TopicRowView)
    ensures
        rows.filter(others(of_user(user))).contains(row) <==> rows.contains(row)
            && row.topic.user_id != user,
{
    lemma_filter_contains(rows, others(of_user(user)), row);
}

/// What is searched by embedding are the topics of the user that have an embedding and have not
/// expired.
pub proof fn embedded_topics_are_searched(
    rows: Seq<TopicRowView>,
    user: UserId,
    now: Timestamp,
    row: TopicRowView,
)
    ensures
        rows.filter(embedded(user, now)).contains(row) <==> rows.contains(row) && row.topic.user_id
            == user && row.embedding is Some && (match row.topic.expires_at {
            Some(at) => at.seconds > now.seconds,
            None => true,
        }),
{
    lemma_filter_contains(rows, embedded(user, now), row);
}

/// What a filter keeps.
proof fn lemma_filter_contains<V>(rows: Seq<V>, keep: spec_fn(V) -> bool, row: V)
    ensures
        rows.filter(keep).contains(row) <==> rows.contains(row) && keep(row),
{
    broadcast use vstd::seq_lib::group_filter_ensures;

    if rows.filter(keep).contains(row) {
        rows.lemma_filter_contains_rev(keep, row);
        let i = choose|i: int| 0 <= i < rows.filter(keep).len() && rows.filter(keep)[i] == row;
        assert(keep(rows.filter(keep)[i]));
    }
    if rows.contains(row) && keep(row) {
        let i = choose|i: int| 0 <= i < rows.len() && rows[i] == row;
        assert(rows.filter(keep).contains(rows[i]));
    }
}

/// The index of a user has an entry for every stored topic of the user that has not expired, with
/// its name, its summary and when it was updated, and so have the contents, with its name and
/// content; there is nothing else in either.
pub proof fn index_has_every_seen_topic(
    rows: Seq<TopicRowView>,
    user: UserId,
    now: Timestamp,
    p: int,
)
    requires
        0 <= p < rows.len(),
        rows[p].topic.user_id == user,
        match rows[p].topic.expires_at {
            Some(at) => at.seconds > now.seconds,
            None => true,
        },
    ensures
        exists|i: int|
            {
                &&& 0 <= i < index_at(rows, user, now).len()
                &&& (#[trigger] index_at(rows, user, now)[i]).topic == rows[p].topic.topic
                &&& index_at(rows, user, now)[i].summary == rows[p].topic.summary
                &&& index_at(rows, user, now)[i].updated_at == rows[p].topic.updated_at
                &&& contents_at(rows, user, now)[i].0 == rows[p].topic.topic
                &&& contents_at(rows, user, now)[i].1 == rows[p].topic.content
            },
        contents_at(rows, user, now).len() == index_at(rows, user, now).len(),
{
    let pick = seen_by(user, now);
    let chosen = selection(rows, pick, topic_name(), false);
    selection_holds_picked(rows, pick, topic_name(), false, rows[p]);
    assert(rows.contains(rows[p]));
    let i = choose|i: int| 0 <= i < chosen.len() && chosen[i] == rows[p];
    assert(index_at(rows, user, now)[i].topic == rows[p].topic.topic);
}

/// Every entry of the index of a user is that of a stored topic of the user that has not expired.
pub proof fn index_has_nothing_else(
    rows: Seq<TopicRowView>,
    user: UserId,
    now: Timestamp,
    i: int,
)
    requires
        0 <= i < index_at(rows, user, now).len(),
    ensures
        exists|p: int|
            {
                &&& 0 <= p < rows.len()
                &&& (#[trigger] rows[p]).topic.user_id == user
                &&& match rows[p].topic.expires_at {
                    Some(at) => at.seconds > now.seconds,
                    None => true,
                }
                &&& index_at(rows, user, now)[i].topic == rows[p].topic.topic
                &&& index_at(rows, user, now)[i].summary == rows[p].topic.summary
                &&& index_at(rows, user, now)[i].updated_at == rows[p].topic.updated_at
                &&& contents_at(rows, user, now)[i] == (
                    rows[p].topic.topic,
                    rows[p].topic.content,
                )
            },
{
    let pick = seen_by(user, now);
    let chosen = selection(rows, pick, topic_name(), false);
    selection_holds_picked(rows, pick, topic_name(), false, chosen[i]);
    assert(chosen.contains(chosen[i]));
    let p = choose|p: int| 0 <= p < rows.len() && rows[p] == chosen[i];
    assert(rows[p].topic.user_id == user);
}

/// Every entry of the index of a user and an agent has the name of a topic, and the summary and
/// the date of the topic that is read under that name.
pub proof fn agent_entry_is_its_topic(
    rows: Seq<AgentTopicView>,
    user: UserId,
    agent: AgentId,
    i: int,
)
    requires
        distinct_by(rows, agent_topic_key()),
        0 <= i < agent_index(rows, user, agent).len(),
    ensures
        ({
            let entry = agent_index(rows, user, agent)[i];
            agent_topic(rows, user, agent, entry.topic) matches Some(t) && {
                &&& t.user_id == user
                &&& t.agent_id == agent
                &&& entry.topic == t.topic
                &&& entry.summary == t.summary
                &&& entry.updated_at == t.updated_at
            }
        }),
{
    let pick = of_pair(user, agent);
    let chosen = selection(rows, pick, agent_topic_name(), false);
    let row = chosen[i];
    selection_holds_picked(rows, pick, agent_topic_name(), false, row);
    assert(chosen.contains(row));
    let at = choose|p: int| 0 <= p < rows.len() && rows[p] == row;
    row_is_found(rows, agent_topic_key(), at);
}

/// Every topic of a user and an agent is read under its name as it was stored, and has an entry in
/// their index, with its name, its summary and its date.
pub proof fn agent_topic_has_its_entry(rows: Seq<AgentTopicView>, p: int)
    requires
        distinct_by(rows, agent_topic_key()),
        0 <= p < rows.len(),
    ensures
        agent_topic(rows, rows[p].user_id, rows[p].agent_id, rows[p].topic) == Some(rows[p]),
        ({
            let index = agent_index(rows, rows[p].user_id, rows[p].agent_id);
            exists|i: int|
                {
                    &&& 0 <= i < index.len()
                    &&& (#[trigger] index[i]).topic == rows[p].topic
                    &&& index[i].summary == rows[p].summary
                    &&& index[i].updated_at == rows[p].updated_at
                }
        }),
{
    row_is_found(rows, agent_topic_key(), p);
    let pick = of_pair(rows[p].user_id, rows[p].agent_id);
    let chosen = selection(rows, pick, agent_topic_name(), false);
    selection_holds_picked(rows, pick, agent_topic_name(), false, rows[p]);
    assert(rows.contains(rows[p]));
    let i = choose|i: int| 0 <= i < chosen.len() && chosen[i] == rows[p];
    let index = agent_index(rows, rows[p].user_id, rows[p].agent_id);
    assert(index[i].topic == rows[p].topic);
}

/// What is read under a user, an agent and a name is a stored topic of the two with that name.
pub proof fn read_agent_topic_is_stored(
    rows: Seq<AgentTopicView>,
    user: UserId,
    agent: AgentId,
    name: Seq<char>,
)
    ensures
        agent_topic(rows, user, agent, name) matches Some(topic) ==> topic.user_id == user
            && topic.agent_id == agent && topic.topic == name && rows.contains(topic),
{
    found_has_key(rows, agent_topic_key(), (user, agent, name));
    first_finds(rows, by_key(agent_topic_key(), (user, agent, name)));
}

/// Deleting the memory of a user and an agent, or of a user with every agent, takes exactly those
/// rows.
pub proof fn deletion_takes_rows_of_pair(
    rows: Seq<AgentTopicView>,
    user: UserId,
    agent: AgentId,
    row: AgentTopicView,
)
    ensures
        rows.filter(others(of_pair(user, agent))).contains(row) <==> rows.contains(row) && (
        row.user_id != user || row.agent_id != agent),
        rows.filter(others(of_any_agent(user))).contains(row) <==> rows.contains(row)
            && row.user_id != user,
{
    lemma_filter_contains(rows, others(of_pair(user, agent)), row);
    lemma_filter_contains(rows, others(of_any_agent(user)), row);
}

} // verus!
