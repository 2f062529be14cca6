//! Per-user-per-agent persistent memory organized into named topics.
//!
//! Stores memory specific to how a particular user interacts with a particular agent.
//! Separate from `user_memory` (general facts about a user across all agents).

use crate::error::OpenFangResult;
use crate::ids::{AgentId, UserId};
use crate::memory::table::{
    by_key, comes_first, distinct_by, drop_picked, find_first, first, found_has_key, kept_is_found,
    kept_twice, labels, others, picked, row_is_found, row_with, select, selection,
    selection_holds_picked, selection_is_sorted, stored, stored_is_found, views, Choice, Label,
};
use crate::memory::time::Timestamp;
use crate::text::{same_text, text_less, text_order_is_total};
use vstd::prelude::*;

verus! {

/// A single memory topic scoped to a (user, agent) pair.
#[derive(Debug)]
pub struct UserAgentMemoryTopic {
    pub user_id: UserId,
    pub agent_id: AgentId,
    /// Topic key, e.g. "interaction_preferences", "delegated_tasks", "known_context".
    pub topic: String,
    /// One-line description shown in the session-start index.
    pub summary: String,
    /// Full topic content injected on per-turn retrieval.
    pub content: String,
    pub updated_at: Timestamp,
}

/// What a topic holds.
pub struct AgentTopicView {
    pub user_id: UserId,
    pub agent_id: AgentId,
    pub topic: Seq<char>,
    pub summary: Seq<char>,
    pub content: Seq<char>,
    pub updated_at: Timestamp,
}

impl View for UserAgentMemoryTopic {
    type V = AgentTopicView;

    open spec fn view(&self) -> AgentTopicView {
        AgentTopicView {
            user_id: self.user_id,
            agent_id: self.agent_id,
            topic: self.topic@,
            summary: self.summary@,
            content: self.content@,
            updated_at: self.updated_at,
        }
    }
}

impl Clone for UserAgentMemoryTopic {
    fn clone(&self) -> (r: Self)
        ensures
            r@ == self@,
    {
        UserAgentMemoryTopic {
            user_id: self.user_id,
            agent_id: self.agent_id,
            topic: self.topic.clone(),
            summary: self.summary.clone(),
            content: self.content.clone(),
            updated_at: self.updated_at,
        }
    }
}

/// What an optional topic holds.
pub open spec fn optional_agent_topic(topic: Option<UserAgentMemoryTopic>) -> Option<
    AgentTopicView,
> {
    match topic {
        Some(t) => Some(t@),
        None => None,
    }
}

/// Lightweight index entry (no full content).
#[derive(Debug)]
pub struct UserAgentTopicIndexEntry {
    pub topic: String,
    pub summary: String,
    pub updated_at: Timestamp,
}

/// What an index entry holds.
pub struct AgentIndexEntryView {
    pub topic: Seq<char>,
    pub summary: Seq<char>,
    pub updated_at: Timestamp,
}

impl View for UserAgentTopicIndexEntry {
    type V = AgentIndexEntryView;

    open spec fn view(&self) -> AgentIndexEntryView {
        AgentIndexEntryView {
            topic: self.topic@,
            summary: self.summary@,
            updated_at: self.updated_at,
        }
    }
}

/// What a topic is found by.
pub open spec fn agent_topic_key() -> spec_fn(AgentTopicView) -> (UserId, AgentId, Seq<char>) {
    |row: AgentTopicView| (row.user_id, row.agent_id, row.topic)
}

/// The topic of a user and an agent.
pub open spec fn agent_topic(
    rows: Seq<AgentTopicView>,
    user: UserId,
    agent: AgentId,
    topic: Seq<char>,
) -> Option<AgentTopicView> {
    row_with(rows, agent_topic_key(), (user, agent, topic))
}

/// Picks the topics of a user and an agent.
pub open spec fn of_pair(user: UserId, agent: AgentId) -> spec_fn(AgentTopicView) -> bool {
    |row: AgentTopicView| row.user_id == user && row.agent_id == agent
}

/// Picks the topics of a user, whatever the agent.
pub open spec fn of_any_agent(user: UserId) -> spec_fn(AgentTopicView) -> bool {
    |row: AgentTopicView| row.user_id == user
}

/// The index entry of a topic.
pub open spec fn agent_entry_for(row: AgentTopicView) -> AgentIndexEntryView {
    AgentIndexEntryView { topic: row.topic, summary: row.summary, updated_at: row.updated_at }
}

/// The name of a topic.
pub open spec fn agent_topic_name() -> spec_fn(AgentTopicView) -> Seq<char> {
    |row: AgentTopicView| row.topic
}

/// The index of a user and an agent: their topics, by name.
pub open spec fn agent_index(rows: Seq<AgentTopicView>, user: UserId, agent: AgentId) -> Seq<
    AgentIndexEntryView,
> {
    selection(rows, of_pair(user, agent), agent_topic_name(), false).map_values(
        |row: AgentTopicView| agent_entry_for(row),
    )
}

/// Sorts topics by name.
struct ByAgentTopicName;

impl Label<UserAgentMemoryTopic> for ByAgentTopicName {
    closed spec fn label(&self, row: AgentTopicView) -> Seq<char> {
        row.topic
    }

    fn read(&self, row: &UserAgentMemoryTopic) -> String {
        row.topic.clone()
    }
}

/// Picks one topic of a user and an agent.
struct OneAgentTopic<'a> {
    user: UserId,
    agent: AgentId,
    topic: &'a str,
}

impl<'a> Choice<UserAgentMemoryTopic> for OneAgentTopic<'a> {
    closed spec fn picks(&self, row: AgentTopicView) -> bool {
        row.user_id == self.user && row.agent_id == self.agent && row.topic == self.topic@
    }

    fn pick(&self, row: &UserAgentMemoryTopic) -> bool {
        row.user_id == self.user && row.agent_id == self.agent && same_text(
            row.topic.as_str(),
            self.topic,
        )
    }
}

/// Picks the topics of a user and an agent.
struct PairTopics {
    user: UserId,
    agent: AgentId,
}

impl Choice<UserAgentMemoryTopic> for PairTopics {
    closed spec fn picks(&self, row: AgentTopicView) -> bool {
        row.user_id == self.user && row.agent_id == self.agent
    }

    fn pick(&self, row: &UserAgentMemoryTopic) -> bool {
        row.user_id == self.user && row.agent_id == self.agent
    }
}

/// Picks the topics of a user, whatever the agent.
struct UserTopics {
    user: UserId,
}

impl Choice<UserAgentMemoryTopic> for UserTopics {
    closed spec fn picks(&self, row: AgentTopicView) -> bool {
        row.user_id == self.user
    }

    fn pick(&self, row: &UserAgentMemoryTopic) -> bool {
        row.user_id == self.user
    }
}

/// Store for per-user-per-agent memory topics.
#[derive(Debug)]
pub struct UserAgentMemoryStore {
    rows: Vec<UserAgentMemoryTopic>,
}

impl UserAgentMemoryStore {
    /// The stored topics.
    pub closed spec fn rows(&self) -> Seq<AgentTopicView> {
        views(self.rows@)
    }

    /// No two topics of a user and an agent have one name.
    #[verifier::type_invariant]
    spec fn well_formed(&self) -> bool {
        distinct_by(views(self.rows@), agent_topic_key())
    }

    /// An empty store.
    pub fn new() -> (r: Self)
        ensures
            r.rows() == Seq::<AgentTopicView>::empty(),
    {
        let r = UserAgentMemoryStore { rows: Vec::new() };
        assert(r.rows() =~= Seq::<AgentTopicView>::empty());
        r
    }

    /// A copy of every stored topic.
    pub fn all_rows(&self) -> (r: Vec<UserAgentMemoryTopic>)
        ensures
            views(r@) == self.rows(),
            distinct_by(self.rows(), agent_topic_key()),
    {
        proof {
            use_type_invariant(self);
        }
        let r: Vec<UserAgentMemoryTopic> = self.rows.clone();
        assert(views(r@) =~= views(self.rows@));
        r
    }

    /// The position of a topic, or the number of topics if there is none.
    fn find(&self, user_id: UserId, agent_id: AgentId, topic: &str) -> (r: usize)
        ensures
            r == first(self.rows(), by_key(agent_topic_key(), (user_id, agent_id, topic@))),
            r <= self.rows@.len(),
    {
        let choice = OneAgentTopic { user: user_id, agent: agent_id, topic };
        assert(picked::<UserAgentMemoryTopic, OneAgentTopic>(choice) =~= by_key(
            agent_topic_key(),
            (user_id, agent_id, topic@),
        ));
        find_first(&self.rows, &choice)
    }

    /// Upsert a topic: replaces existing content for this (user_id, agent_id, topic).
    pub fn upsert_topic(&mut self, topic: &UserAgentMemoryTopic) -> (r: OpenFangResult<()>)
        ensures
            r is Ok,
            final(self).rows() == stored(old(self).rows(), agent_topic_key(), topic@),
    {
        proof {
            use_type_invariant(&*self);
            stored_is_found(self.rows(), agent_topic_key(), topic@, agent_topic_key()(topic@));
        }
        let at: usize = self.find(topic.user_id, topic.agent_id, topic.topic.as_str());
        let mut rows: Vec<UserAgentMemoryTopic> = Vec::new();
        std::mem::swap(&mut rows, &mut self.rows);
        let ghost before = views(rows@);
        if at < rows.len() {
            rows.set(at, topic.clone());
            assert(views(rows@) =~= before.update(at as int, topic@));
        } else {
            rows.push(topic.clone());
            assert(views(rows@) =~= before.push(topic@));
        }
        self.rows = rows;
        Ok(())
    }

    /// Get the index (topic names + summaries) for a (user, agent) pair: no full content.
    pub fn get_index(&self, user_id: UserId, agent_id: AgentId) -> (r: OpenFangResult<
        Vec<UserAgentTopicIndexEntry>,
    >)
        ensures
            r matches Ok(entries) && views(entries@) == agent_index(
                self.rows(),
                user_id,
                agent_id,
            ),
    {
        let choice = PairTopics { user: user_id, agent: agent_id };
        let label = ByAgentTopicName;
        let ghost pick = of_pair(user_id, agent_id);
        assert(picked::<UserAgentMemoryTopic, PairTopics>(choice) =~= pick);
        assert(labels::<UserAgentMemoryTopic, ByAgentTopicName>(label) =~= agent_topic_name());
        let order: Vec<usize> = select(&self.rows, &choice, &label, false);
        let ghost chosen = selection(self.rows(), pick, agent_topic_name(), false);
        let mut out: Vec<UserAgentTopicIndexEntry> = Vec::new();
        let mut k: usize = 0;
        while k < order.len()
            invariant
                k <= order.len(),
                forall|i: int| 0 <= i < order@.len() ==> (#[trigger] order@[i]) < self.rows@.len(),
                order@.map_values(|p: usize| self.rows@[p as int]@) == chosen,
                out@.len() == k,
                forall|i: int| 0 <= i < k ==> (#[trigger] out@[i])@ == agent_entry_for(chosen[i]),
            decreases order.len() - k,
        {
            let topic: &UserAgentMemoryTopic = &self.rows[order[k]];
            assert(chosen[k as int] == self.rows@[order@[k as int] as int]@);
            out.push(
                UserAgentTopicIndexEntry {
                    topic: topic.topic.clone(),
                    summary: topic.summary.clone(),
                    updated_at: topic.updated_at,
                },
            );
            k = k + 1;
        }
        assert(order@.len() == chosen.len());
        assert(views(out@) =~= chosen.map_values(|row: AgentTopicView| agent_entry_for(row)));
        Ok(out)
    }

    /// Get full content for a specific topic.
    pub fn get_topic(&self, user_id: UserId, agent_id: AgentId, topic: &str) -> (r: OpenFangResult<
        Option<UserAgentMemoryTopic>,
    >)
        ensures
            r matches Ok(got) && optional_agent_topic(got) == agent_topic(
                self.rows(),
                user_id,
                agent_id,
                topic@,
            ),
    {
        let at: usize = self.find(user_id, agent_id, topic);
        if at < self.rows.len() {
            Ok(Some(self.rows[at].clone()))
        } else {
            Ok(None)
        }
    }

    /// Drop the rows that are picked. Returns how many there were.
    fn drop_rows<C: Choice<UserAgentMemoryTopic>>(&mut self, choice: &C) -> (r: usize)
        ensures
            final(self).rows() == old(self).rows().filter(
                others(picked::<UserAgentMemoryTopic, C>(*choice)),
            ),
            r == old(self).rows().len() - final(self).rows().len(),
    {
        proof {
            use_type_invariant(&*self);
            kept_is_found(
                self.rows(),
                agent_topic_key(),
                others(picked::<UserAgentMemoryTopic, C>(*choice)),
                (UserId(0), AgentId(0), Seq::<char>::empty()),
            );
        }
        let mut rows: Vec<UserAgentMemoryTopic> = Vec::new();
        std::mem::swap(&mut rows, &mut self.rows);
        let before: usize = rows.len();
        let kept: Vec<UserAgentMemoryTopic> = drop_picked(rows, choice);
        let after: usize = kept.len();
        self.rows = kept;
        before - after
    }

    /// Delete all memory for a (user, agent) pair.
    ///
    /// Returns the number of rows deleted.
    pub fn delete_user_agent_memory(&mut self, user_id: UserId, agent_id: AgentId) -> (r:
        OpenFangResult<usize>)
        ensures
            final(self).rows() == old(self).rows().filter(others(of_pair(user_id, agent_id))),
            r matches Ok(n) && n == old(self).rows().len() - final(self).rows().len(),
    {
        let choice = PairTopics { user: user_id, agent: agent_id };
        assert(picked::<UserAgentMemoryTopic, PairTopics>(choice) =~= of_pair(user_id, agent_id));
        Ok(self.drop_rows(&choice))
    }

    /// Delete all memory across all agents for a user (e.g. on account deletion).
    ///
    /// Returns the number of rows deleted.
    pub fn delete_all_user_memory(&mut self, user_id: UserId) -> (r: OpenFangResult<usize>)
        ensures
            final(self).rows() == old(self).rows().filter(others(of_any_agent(user_id))),
            r matches Ok(n) && n == old(self).rows().len() - final(self).rows().len(),
    {
        let choice = UserTopics { user: user_id };
        assert(picked::<UserAgentMemoryTopic, UserTopics>(choice) =~= of_any_agent(user_id));
        Ok(self.drop_rows(&choice))
    }
}

/// A topic that was written is read back as it was written; and writing it changes no other
/// topic, of this user and agent or of others.
pub proof fn written_agent_topic_is_read(
    rows: Seq<AgentTopicView>,
    written: AgentTopicView,
    user: UserId,
    agent: AgentId,
    topic: Seq<char>,
)
    requires
        distinct_by(rows, agent_topic_key()),
    ensures
        distinct_by(stored(rows, agent_topic_key(), written), agent_topic_key()),
        agent_topic(stored(rows, agent_topic_key(), written), user, agent, topic) == if user
            == written.user_id && agent == written.agent_id && topic == written.topic {
            Some(written)
        } else {
            agent_topic(rows, user, agent, topic)
        },
{
    stored_is_found(rows, agent_topic_key(), written, (user, agent, topic));
}

/// Deleting the memory of a user and an agent deletes all of it, and nothing of another pair.
pub proof fn deleted_pair_is_forgotten(
    rows: Seq<AgentTopicView>,
    user: UserId,
    agent: AgentId,
    other_user: UserId,
    other_agent: AgentId,
    topic: Seq<char>,
)
    requires
        distinct_by(rows, agent_topic_key()),
    ensures
        agent_topic(rows.filter(others(of_pair(user, agent))), other_user, other_agent, topic)
            == if other_user == user && other_agent == agent {
            None
        } else {
            agent_topic(rows, other_user, other_agent, topic)
        },
{
    kept_is_found(
        rows,
        agent_topic_key(),
        others(of_pair(user, agent)),
        (other_user, other_agent, topic),
    );
    found_has_key(rows, agent_topic_key(), (other_user, other_agent, topic));
}

/// Deleting the memory of a user across all agents deletes all of it, and nothing of another
/// user; doing it again deletes nothing.
pub proof fn deleted_across_agents_is_forgotten(
    rows: Seq<AgentTopicView>,
    user: UserId,
    other_user: UserId,
    agent: AgentId,
    topic: Seq<char>,
)
    requires
        distinct_by(rows, agent_topic_key()),
    ensures
        agent_topic(rows.filter(others(of_any_agent(user))), other_user, agent, topic) == if other_user
            == user {
            None
        } else {
            agent_topic(rows, other_user, agent, topic)
        },
        rows.filter(others(of_any_agent(user))).filter(others(of_any_agent(user))) == rows.filter(
            others(of_any_agent(user)),
        ),
{
    kept_is_found(rows, agent_topic_key(), others(of_any_agent(user)), (other_user, agent, topic));
    found_has_key(rows, agent_topic_key(), (other_user, agent, topic));
    kept_twice(rows, others(of_any_agent(user)));
}

/// The index of a user and an agent is sorted by name, no name occurs twice, and each entry is
/// that of the topic which is read by its name.
pub proof fn agent_index_is_sorted(rows: Seq<AgentTopicView>, user: UserId, agent: AgentId)
    requires
        distinct_by(rows, agent_topic_key()),
    ensures
        forall|i: int, j: int|
            0 <= i < j < agent_index(rows, user, agent).len() ==> text_less(
                (#[trigger] agent_index(rows, user, agent)[i]).topic,
                (#[trigger] agent_index(rows, user, agent)[j]).topic,
            ),
        forall|i: int|
            0 <= i < agent_index(rows, user, agent).len() ==> {
                let entry = #[trigger] agent_index(rows, user, agent)[i];
                agent_topic(rows, user, agent, entry.topic) matches Some(t) && entry
                    == agent_entry_for(t)
            },
{
    let pick = of_pair(user, agent);
    let chosen = selection(rows, pick, agent_topic_name(), false);
    let index = agent_index(rows, user, agent);
    selection_is_sorted(rows, pick, agent_topic_name(), false, agent_topic_key());
    assert forall|i: int, j: int| 0 <= i < j < index.len() implies text_less(
        (#[trigger] index[i]).topic,
        (#[trigger] index[j]).topic,
    ) by {
        let a = chosen[i];
        let b = chosen[j];
        selection_holds_picked(rows, pick, agent_topic_name(), false, a);
        selection_holds_picked(rows, pick, agent_topic_name(), false, b);
        assert(chosen.contains(a) && chosen.contains(b));
        assert(agent_topic_key()(chosen[i]) != agent_topic_key()(chosen[j]));
        assert(!comes_first(agent_topic_name()(chosen[j]), agent_topic_name()(chosen[i]), false));
        text_order_is_total(a.topic, b.topic);
    }
    assert forall|i: int| 0 <= i < index.len() implies {
        let entry = #[trigger] index[i];
        agent_topic(rows, user, agent, entry.topic) matches Some(t) && entry == agent_entry_for(t)
    } by {
        let row = chosen[i];
        selection_holds_picked(rows, pick, agent_topic_name(), false, row);
        assert(chosen.contains(row));
        let at = choose|p: int| 0 <= p < rows.len() && rows[p] == row;
        row_is_found(rows, agent_topic_key(), at);
    }
}

} // verus!
