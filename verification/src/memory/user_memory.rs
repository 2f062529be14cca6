//! Per-user persistent memory organized into named topics.
//!
//! Dream writes topic entries at session end; injection reads the index
//! (topic names + summaries) at session start and fetches full topic content
//! per-message for relevant topics.
//!
//! Topics can optionally carry an `expires_at` timestamp for time-sensitive facts
//! (travel plans, temporary preferences). Expired topics are invisible at read time.
//! An embedding is stored packed, for optional similarity retrieval; it is absent for
//! topics that were never embedded.

use crate::error::OpenFangResult;
use crate::ids::UserId;
use crate::memory::embedding::{pack_embedding, packed, unpack_embedding, unpacked};
use crate::memory::table::{
    by_key, distinct_by, drop_picked, find_all, find_first, first, first_finds, kept_is_found,
    labels, others, picked, places, places_hold_picked, row_with, select, selection, stored,
    stored_is_found, views, Choice, Label,
};
use crate::memory::time::Timestamp;
use crate::text::{same_text, texts};
use vstd::prelude::*;

verus! {

/// A single memory topic for a user.
#[derive(Debug)]
pub struct MemoryTopic {
    pub user_id: UserId,
    /// Topic key, e.g. "work_context", "preferences", "open_items".
    pub topic: String,
    /// One-line description shown in the session-start index.
    pub summary: String,
    /// Full topic content injected on per-turn retrieval.
    pub content: String,
    pub updated_at: Timestamp,
    /// Optional expiry for time-sensitive facts. Expired topics are invisible at read time.
    pub expires_at: Option<Timestamp>,
}

/// What a topic holds.
pub struct TopicView {
    pub user_id: UserId,
    pub topic: Seq<char>,
    pub summary: Seq<char>,
    pub content: Seq<char>,
    pub updated_at: Timestamp,
    pub expires_at: Option<Timestamp>,
}

impl View for MemoryTopic {
    type V = TopicView;

    open spec fn view(&self) -> TopicView {
        TopicView {
            user_id: self.user_id,
            topic: self.topic@,
            summary: self.summary@,
            content: self.content@,
            updated_at: self.updated_at,
            expires_at: self.expires_at,
        }
    }
}

impl Clone for MemoryTopic {
    fn clone(&self) -> (r: Self)
        ensures
            r@ == self@,
    {
        MemoryTopic {
            user_id: self.user_id,
            topic: self.topic.clone(),
            summary: self.summary.clone(),
            content: self.content.clone(),
            updated_at: self.updated_at,
            expires_at: self.expires_at,
        }
    }
}

/// What an optional topic holds.
pub open spec fn optional_topic(topic: Option<MemoryTopic>) -> Option<TopicView> {
    match topic {
        Some(t) => Some(t@),
        None => None,
    }
}

/// Lightweight index entry for a topic (no full content).
#[derive(Debug)]
pub struct TopicIndexEntry {
    pub topic: String,
    pub summary: String,
    pub updated_at: Timestamp,
}

/// What an index entry holds.
pub struct IndexEntryView {
    pub topic: Seq<char>,
    pub summary: Seq<char>,
    pub updated_at: Timestamp,
}

impl View for TopicIndexEntry {
    type V = IndexEntryView;

    open spec fn view(&self) -> IndexEntryView {
        IndexEntryView {
            topic: self.topic@,
            summary: self.summary@,
            updated_at: self.updated_at,
        }
    }
}

/// A stored topic.
#[derive(Debug)]
pub struct TopicRow {
    pub topic: MemoryTopic,
    /// The packed embedding of the content.
    pub embedding: Option<Vec<u8>>,
}

/// What a stored topic holds.
pub struct TopicRowView {
    pub topic: TopicView,
    pub embedding: Option<Seq<u8>>,
}

impl View for TopicRow {
    type V = TopicRowView;

    open spec fn view(&self) -> TopicRowView {
        TopicRowView {
            topic: self.topic@,
            embedding: match self.embedding {
                Some(bytes) => Some(bytes@),
                None => None,
            },
        }
    }
}

impl Clone for TopicRow {
    fn clone(&self) -> (r: Self)
        ensures
            r@ == self@,
    {
        let embedding: Option<Vec<u8>> = match &self.embedding {
            Some(bytes) => {
                let copy: Vec<u8> = bytes.clone();
                assert(copy@ =~= bytes@);
                Some(copy)
            },
            None => None,
        };
        TopicRow { topic: self.topic.clone(), embedding }
    }
}

/// What a topic is found by.
pub open spec fn topic_key() -> spec_fn(TopicRowView) -> (UserId, Seq<char>) {
    |row: TopicRowView| (row.topic.user_id, row.topic.topic)
}

/// The stored topic of a user.
pub open spec fn topic_row(rows: Seq<TopicRowView>, user: UserId, topic: Seq<char>) -> Option<
    TopicRowView,
> {
    row_with(rows, topic_key(), (user, topic))
}

/// Whether a topic can be seen at `now`: it has no expiry, or one in a later second.
pub open spec fn visible(topic: TopicView, now: Timestamp) -> bool {
    match topic.expires_at {
        Some(at) => at.seconds > now.seconds,
        None => true,
    }
}

/// Picks the topics of a user.
pub open spec fn of_user(user: UserId) -> spec_fn(TopicRowView) -> bool {
    |row: TopicRowView| row.topic.user_id == user
}

/// Picks the topics of a user that can be seen.
pub open spec fn seen_by(user: UserId, now: Timestamp) -> spec_fn(TopicRowView) -> bool {
    |row: TopicRowView| row.topic.user_id == user && visible(row.topic, now)
}

/// Picks the topics of a user that have expired.
pub open spec fn expired(user: UserId, now: Timestamp) -> spec_fn(TopicRowView) -> bool {
    |row: TopicRowView| row.topic.user_id == user && !visible(row.topic, now)
}

/// Picks the topics of a user that can be seen and have an embedding.
pub open spec fn embedded(user: UserId, now: Timestamp) -> spec_fn(TopicRowView) -> bool {
    |row: TopicRowView|
        row.topic.user_id == user && visible(row.topic, now) && row.embedding is Some
}

/// The rows after a topic was written: it replaces the stored one but for the embedding, or is
/// appended without one.
pub open spec fn upserted(rows: Seq<TopicRowView>, topic: TopicView) -> Seq<TopicRowView> {
    let embedding = match topic_row(rows, topic.user_id, topic.topic) {
        Some(row) => row.embedding,
        None => None,
    };
    stored(rows, topic_key(), TopicRowView { topic, embedding })
}

/// The rows without the topic of a user.
pub open spec fn without_topic(
    rows: Seq<TopicRowView>,
    user: UserId,
    topic: Seq<char>,
) -> Seq<TopicRowView> {
    rows.filter(others(by_key(topic_key(), (user, topic))))
}

/// The rows after the embedding of a topic was set; nothing changes if there is no such topic.
pub open spec fn with_embedding(
    rows: Seq<TopicRowView>,
    user: UserId,
    topic: Seq<char>,
    embedding: Seq<u8>,
) -> Seq<TopicRowView> {
    match topic_row(rows, user, topic) {
        Some(row) => stored(
            rows,
            topic_key(),
            TopicRowView { embedding: Some(embedding), ..row },
        ),
        None => rows,
    }
}

/// The index entry of a topic.
pub open spec fn entry_for(row: TopicRowView) -> IndexEntryView {
    IndexEntryView {
        topic: row.topic.topic,
        summary: row.topic.summary,
        updated_at: row.topic.updated_at,
    }
}

/// The name of a topic.
pub open spec fn topic_name() -> spec_fn(TopicRowView) -> Seq<char> {
    |row: TopicRowView| row.topic.topic
}

/// The index of a user at `now`: the topics that can be seen, by name.
pub open spec fn index_at(rows: Seq<TopicRowView>, user: UserId, now: Timestamp) -> Seq<
    IndexEntryView,
> {
    selection(rows, seen_by(user, now), topic_name(), false).map_values(
        |row: TopicRowView| entry_for(row),
    )
}

/// The names and contents of the topics of a user that can be seen at `now`, by name.
pub open spec fn contents_at(rows: Seq<TopicRowView>, user: UserId, now: Timestamp) -> Seq<
    (Seq<char>, Seq<char>),
> {
    selection(rows, seen_by(user, now), topic_name(), false).map_values(
        |row: TopicRowView| (row.topic.topic, row.topic.content),
    )
}

/// What a list of pairs of strings holds.
pub open spec fn text_pairs(pairs: Seq<(String, String)>) -> Seq<(Seq<char>, Seq<char>)> {
    pairs.map_values(|p: (String, String)| (p.0@, p.1@))
}

/// A topic of a user at `now`, if it can be seen.
pub open spec fn topic_at(
    rows: Seq<TopicRowView>,
    user: UserId,
    topic: Seq<char>,
    now: Timestamp,
) -> Option<TopicView> {
    match topic_row(rows, user, topic) {
        Some(row) if visible(row.topic, now) => Some(row.topic),
        _ => None,
    }
}

/// Picks one topic of a user.
struct OneTopic<'a> {
    user: UserId,
    topic: &'a str,
}

impl<'a> Choice<TopicRow> for OneTopic<'a> {
    closed spec fn picks(&self, row: TopicRowView) -> bool {
        row.topic.user_id == self.user && row.topic.topic == self.topic@
    }

    fn pick(&self, row: &TopicRow) -> bool {
        row.topic.user_id == self.user && same_text(row.topic.topic.as_str(), self.topic)
    }
}

/// Picks the topics of a user.
struct AllTopics {
    user: UserId,
}

impl Choice<TopicRow> for AllTopics {
    closed spec fn picks(&self, row: TopicRowView) -> bool {
        row.topic.user_id == self.user
    }

    fn pick(&self, row: &TopicRow) -> bool {
        row.topic.user_id == self.user
    }
}

/// Sorts topics by name.
struct ByName;

impl Label<TopicRow> for ByName {
    closed spec fn label(&self, row: TopicRowView) -> Seq<char> {
        row.topic.topic
    }

    fn read(&self, row: &TopicRow) -> String {
        row.topic.topic.clone()
    }
}

/// Whether a topic can be seen at `now`.
fn is_visible(topic: &MemoryTopic, now: Timestamp) -> (r: bool)
    ensures
        r == visible(topic@, now),
{
    match &topic.expires_at {
        Some(at) => at.later_second(&now),
        None => true,
    }
}

/// Picks the topics of a user that can be seen.
struct SeenTopics {
    user: UserId,
    now: Timestamp,
}

impl Choice<TopicRow> for SeenTopics {
    closed spec fn picks(&self, row: TopicRowView) -> bool {
        row.topic.user_id == self.user && visible(row.topic, self.now)
    }

    fn pick(&self, row: &TopicRow) -> bool {
        row.topic.user_id == self.user && is_visible(&row.topic, self.now)
    }
}

/// Picks the topics of a user that have expired.
struct ExpiredTopics {
    user: UserId,
    now: Timestamp,
}

impl Choice<TopicRow> for ExpiredTopics {
    closed spec fn picks(&self, row: TopicRowView) -> bool {
        row.topic.user_id == self.user && !visible(row.topic, self.now)
    }

    fn pick(&self, row: &TopicRow) -> bool {
        row.topic.user_id == self.user && !is_visible(&row.topic, self.now)
    }
}

/// Picks the topics of a user that can be seen and have an embedding.
struct EmbeddedTopics {
    user: UserId,
    now: Timestamp,
}

impl Choice<TopicRow> for EmbeddedTopics {
    closed spec fn picks(&self, row: TopicRowView) -> bool {
        row.topic.user_id == self.user && visible(row.topic, self.now) && row.embedding is Some
    }

    fn pick(&self, row: &TopicRow) -> bool {
        row.topic.user_id == self.user && is_visible(&row.topic, self.now)
            && row.embedding.is_some()
    }
}

/// User memory store.
#[derive(Debug)]
pub struct UserMemoryStore {
    rows: Vec<TopicRow>,
}

impl UserMemoryStore {
    /// The stored topics.
    pub closed spec fn rows(&self) -> Seq<TopicRowView> {
        views(self.rows@)
    }

    /// No two topics of a user have one name.
    #[verifier::type_invariant]
    spec fn well_formed(&self) -> bool {
        distinct_by(views(self.rows@), topic_key())
    }

    /// An empty store.
    pub fn new() -> (r: Self)
        ensures
            r.rows() == Seq::<TopicRowView>::empty(),
    {
        let r = UserMemoryStore { rows: Vec::new() };
        assert(r.rows() =~= Seq::<TopicRowView>::empty());
        r
    }

    /// A copy of every stored topic.
    pub fn all_rows(&self) -> (r: Vec<TopicRow>)
        ensures
            views(r@) == self.rows(),
            distinct_by(self.rows(), topic_key()),
    {
        proof {
            use_type_invariant(self);
        }
        let r: Vec<TopicRow> = self.rows.clone();
        assert(views(r@) =~= views(self.rows@));
        r
    }

    /// The position of a topic, or the number of topics if there is none.
    fn find(&self, user_id: UserId, topic: &str) -> (r: usize)
        ensures
            r == first(self.rows(), by_key(topic_key(), (user_id, topic@))),
            r <= self.rows@.len(),
    {
        let choice = OneTopic { user: user_id, topic };
        assert(picked::<TopicRow, OneTopic>(choice) =~= by_key(topic_key(), (user_id, topic@)));
        find_first(&self.rows, &choice)
    }

    /// Put back a row as it was stored, in place of the one with its key.
    pub fn restore(&mut self, row: TopicRow)
        ensures
            final(self).rows() == stored(old(self).rows(), topic_key(), row@),
    {
        proof {
            use_type_invariant(&*self);
            stored_is_found(self.rows(), topic_key(), row@, topic_key()(row@));
        }
        let at: usize = self.find(row.topic.user_id, row.topic.topic.as_str());
        let mut rows: Vec<TopicRow> = Vec::new();
        std::mem::swap(&mut rows, &mut self.rows);
        let ghost before = views(rows@);
        if at < rows.len() {
            rows.set(at, row);
            assert(views(rows@) =~= before.update(at as int, row@));
        } else {
            rows.push(row);
            assert(views(rows@) =~= before.push(row@));
        }
        self.rows = rows;
    }

    /// Upsert a topic: replaces existing content for this (user_id, topic) pair.
    pub fn upsert_topic(&mut self, topic: &MemoryTopic) -> (r: OpenFangResult<()>)
        ensures
            r is Ok,
            final(self).rows() == upserted(old(self).rows(), topic@),
    {
        let at: usize = self.find(topic.user_id, topic.topic.as_str());
        let embedding: Option<Vec<u8>> = if at < self.rows.len() {
            self.rows[at].clone().embedding
        } else {
            None
        };
        let row = TopicRow { topic: topic.clone(), embedding };
        self.restore(row);
        Ok(())
    }

    /// Drop the rows that are picked. Returns how many there were.
    fn drop_rows<C: Choice<TopicRow>>(&mut self, choice: &C) -> (r: usize)
        ensures
            final(self).rows() == old(self).rows().filter(others(picked::<TopicRow, C>(*choice))),
            r == old(self).rows().len() - final(self).rows().len(),
    {
        proof {
            use_type_invariant(&*self);
            kept_is_found(
                self.rows(),
                topic_key(),
                others(picked::<TopicRow, C>(*choice)),
                (UserId(0), Seq::<char>::empty()),
            );
        }
        let mut rows: Vec<TopicRow> = Vec::new();
        std::mem::swap(&mut rows, &mut self.rows);
        let before: usize = rows.len();
        let kept: Vec<TopicRow> = drop_picked(rows, choice);
        let after: usize = kept.len();
        self.rows = kept;
        before - after
    }

    /// Delete a single topic for a user. Used by conflict resolution (supersedes).
    pub fn delete_topic(&mut self, user_id: UserId, topic: &str) -> (r: OpenFangResult<()>)
        ensures
            r is Ok,
            final(self).rows() == without_topic(old(self).rows(), user_id, topic@),
    {
        let choice = OneTopic { user: user_id, topic };
        assert(picked::<TopicRow, OneTopic>(choice) =~= by_key(topic_key(), (user_id, topic@)));
        self.drop_rows(&choice);
        Ok(())
    }

    /// Get the index (topic names + summaries) for a user at `now`: no full content.
    /// Expired topics are excluded.
    pub fn get_index_at(&self, user_id: UserId, now: Timestamp) -> (r: Vec<TopicIndexEntry>)
        ensures
            views(r@) == index_at(self.rows(), user_id, now),
    {
        let choice = SeenTopics { user: user_id, now };
        let label = ByName;
        assert(picked::<TopicRow, SeenTopics>(choice) =~= seen_by(user_id, now));
        assert(labels::<TopicRow, ByName>(label) =~= topic_name());
        let order: Vec<usize> = select(&self.rows, &choice, &label, false);
        let ghost chosen = selection(self.rows(), seen_by(user_id, now), topic_name(), false);
        let mut out: Vec<TopicIndexEntry> = Vec::new();
        let mut k: usize = 0;
        while k < order.len()
            invariant
                k <= order.len(),
                forall|i: int| 0 <= i < order@.len() ==> (#[trigger] order@[i]) < self.rows@.len(),
                order@.map_values(|p: usize| self.rows@[p as int]@) == chosen,
                out@.len() == k,
                forall|i: int| 0 <= i < k ==> (#[trigger] out@[i])@ == entry_for(chosen[i]),
            decreases order.len() - k,
        {
            let topic: &MemoryTopic = &self.rows[order[k]].topic;
            assert(chosen[k as int] == self.rows@[order@[k as int] as int]@);
            out.push(
                TopicIndexEntry {
                    topic: topic.topic.clone(),
                    summary: topic.summary.clone(),
                    updated_at: topic.updated_at,
                },
            );
            k = k + 1;
        }
        assert(order@.len() == chosen.len());
        assert(views(out@) =~= chosen.map_values(|row: TopicRowView| entry_for(row)));
        out
    }

    /// Get the index (topic names + summaries) for a user: no full content.
    /// Expired topics are excluded.
    pub fn get_index(&self, user_id: UserId) -> (r: OpenFangResult<Vec<TopicIndexEntry>>)
        ensures
            r matches Ok(entries) && exists|now: Timestamp|
                now.on_clock() && views(entries@) == #[trigger] index_at(self.rows(), user_id, now),
    {
        Ok(self.get_index_at(user_id, Timestamp::now()))
    }

    /// Get the names and contents of the topics of a user that can be seen at `now`, by name.
    pub fn get_contents_at(&self, user_id: UserId, now: Timestamp) -> (r: Vec<(String, String)>)
        ensures
            text_pairs(r@) == contents_at(self.rows(), user_id, now),
    {
        let choice = SeenTopics { user: user_id, now };
        let label = ByName;
        assert(picked::<TopicRow, SeenTopics>(choice) =~= seen_by(user_id, now));
        assert(labels::<TopicRow, ByName>(label) =~= topic_name());
        let order: Vec<usize> = select(&self.rows, &choice, &label, false);
        let ghost chosen = selection(self.rows(), seen_by(user_id, now), topic_name(), false);
        let mut out: Vec<(String, String)> = Vec::new();
        let mut k: usize = 0;
        while k < order.len()
            invariant
                k <= order.len(),
                forall|i: int| 0 <= i < order@.len() ==> (#[trigger] order@[i]) < self.rows@.len(),
                order@.map_values(|p: usize| self.rows@[p as int]@) == chosen,
                out@.len() == k,
                forall|i: int|
                    0 <= i < k ==> (#[trigger] out@[i]).0@ == chosen[i].topic.topic && out@[i].1@
                        == chosen[i].topic.content,
            decreases order.len() - k,
        {
            let topic: &MemoryTopic = &self.rows[order[k]].topic;
            assert(chosen[k as int] == self.rows@[order@[k as int] as int]@);
            out.push((topic.topic.clone(), topic.content.clone()));
            k = k + 1;
        }
        assert(order@.len() == chosen.len());
        assert(text_pairs(out@) =~= chosen.map_values(
            |row: TopicRowView| (row.topic.topic, row.topic.content),
        ));
        out
    }

    /// Get full content for a specific topic at `now`. Returns None if the topic does not exist
    /// or has expired.
    pub fn get_topic_at(&self, user_id: UserId, topic: &str, now: Timestamp) -> (r: Option<
        MemoryTopic,
    >)
        ensures
            optional_topic(r) == topic_at(self.rows(), user_id, topic@, now),
    {
        let at: usize = self.find(user_id, topic);
        if at < self.rows.len() && is_visible(&self.rows[at].topic, now) {
            Some(self.rows[at].topic.clone())
        } else {
            None
        }
    }

    /// Get full content for a specific topic. Returns None if the topic does not exist
    /// or has expired.
    pub fn get_topic(&self, user_id: UserId, topic: &str) -> (r: OpenFangResult<
        Option<MemoryTopic>,
    >)
        ensures
            r matches Ok(got) && exists|now: Timestamp|
                now.on_clock() && optional_topic(got) == #[trigger] topic_at(
                    self.rows(),
                    user_id,
                    topic@,
                    now,
                ),
    {
        Ok(self.get_topic_at(user_id, topic, Timestamp::now()))
    }

    /// Store a pre-computed embedding for a topic, given as the bit patterns of its numbers.
    ///
    /// Embeddings are packed as little-endian bytes. Nothing happens if the topic does not
    /// exist.
    pub fn store_embedding(&mut self, user_id: UserId, topic: &str, embedding: &[u32]) -> (r:
        OpenFangResult<()>)
        ensures
            r is Ok,
            final(self).rows() == with_embedding(
                old(self).rows(),
                user_id,
                topic@,
                packed(embedding@),
            ),
    {
        let blob: Vec<u8> = pack_embedding(embedding);
        let at: usize = self.find(user_id, topic);
        if at < self.rows.len() {
            proof {
                first_finds(self.rows(), by_key(topic_key(), (user_id, topic@)));
            }
            let row = TopicRow { topic: self.rows[at].topic.clone(), embedding: Some(blob) };
            self.restore(row);
        }
        Ok(())
    }

    /// The topics of a user that can be seen at `now` and have an embedding, with the bit
    /// patterns of its numbers.
    pub fn embeddings_at(&self, user_id: UserId, now: Timestamp) -> (r: (
        Vec<String>,
        Vec<Vec<u32>>,
    ))
        ensures
            r.0@.len() == r.1@.len(),
            texts(r.0@) == self.rows().filter(embedded(user_id, now)).map_values(
                |row: TopicRowView| row.topic.topic,
            ),
            forall|k: int|
                0 <= k < r.1@.len() ==> (#[trigger] r.1@[k])@ == unpacked(
                    self.rows().filter(embedded(user_id, now))[k].embedding->0,
                ),
    {
        let choice = EmbeddedTopics { user: user_id, now };
        assert(picked::<TopicRow, EmbeddedTopics>(choice) =~= embedded(user_id, now));
        let mine: Vec<usize> = find_all(&self.rows, &choice);
        let ghost chosen = self.rows().filter(embedded(user_id, now));
        let ghost at = places(self.rows(), embedded(user_id, now));
        proof {
            places_hold_picked(self.rows(), embedded(user_id, now));
            broadcast use vstd::seq_lib::group_filter_ensures;

            assert(chosen.len() == mine@.len()) by {
                assert(at.len() == mine@.len());
            }
            assert forall|k: int| 0 <= k < chosen.len() implies (
            #[trigger] chosen[k]).embedding is Some by {
                assert(embedded(user_id, now)(chosen[k]));
            }
        }
        let mut names: Vec<String> = Vec::new();
        let mut vectors: Vec<Vec<u32>> = Vec::new();
        let mut i: usize = 0;
        while i < mine.len()
            invariant
                i <= mine.len(),
                chosen.len() == mine@.len(),
                mine@.map_values(|i: usize| i as int) == at,
                forall|k: int| 0 <= k < mine@.len() ==> (#[trigger] mine@[k]) < self.rows@.len(),
                chosen == at.map_values(|i: int| self.rows()[i]),
                forall|k: int|
                    0 <= k < chosen.len() ==> (#[trigger] chosen[k]).embedding is Some,
                names@.len() == i,
                vectors@.len() == i,
                forall|k: int| 0 <= k < i ==> (#[trigger] names@[k])@ == chosen[k].topic.topic,
                forall|k: int|
                    0 <= k < i ==> (#[trigger] vectors@[k])@ == unpacked(chosen[k].embedding->0),
            decreases mine.len() - i,
        {
            assert(at[i as int] == mine@[i as int]);
            assert(chosen[i as int] == self.rows@[mine@[i as int] as int]@);
            let row: &TopicRow = &self.rows[mine[i]];
            names.push(row.topic.topic.clone());
            let vector: Vec<u32> = match &row.embedding {
                Some(bytes) => unpack_embedding(bytes.as_slice()),
                None => Vec::new(),
            };
            vectors.push(vector);
            i = i + 1;
        }
        assert(texts(names@) =~= chosen.map_values(|row: TopicRowView| row.topic.topic));
        (names, vectors)
    }

    /// Delete all memory for a user.
    ///
    /// Returns the number of rows deleted so that callers (e.g. the wipe
    /// endpoint) can report a per-bucket count back to the user.
    pub fn delete_user_memory(&mut self, user_id: UserId) -> (r: OpenFangResult<usize>)
        ensures
            final(self).rows() == old(self).rows().filter(others(of_user(user_id))),
            r matches Ok(n) && n == old(self).rows().len() - final(self).rows().len(),
    {
        let choice = AllTopics { user: user_id };
        assert(picked::<TopicRow, AllTopics>(choice) =~= of_user(user_id));
        Ok(self.drop_rows(&choice))
    }

    /// Delete the topics of a user that have expired at `now`. Returns how many there were.
    pub fn prune_expired_at(&mut self, user_id: UserId, now: Timestamp) -> (r: usize)
        ensures
            final(self).rows() == old(self).rows().filter(others(expired(user_id, now))),
            r == old(self).rows().len() - final(self).rows().len(),
    {
        let choice = ExpiredTopics { user: user_id, now };
        assert(picked::<TopicRow, ExpiredTopics>(choice) =~= expired(user_id, now));
        self.drop_rows(&choice)
    }

    /// Delete expired topics for a user. Called opportunistically: expiry is also
    /// enforced at read time, but periodic pruning keeps the table tidy.
    pub fn prune_expired(&mut self, user_id: UserId) -> (r: OpenFangResult<usize>)
        ensures
            exists|now: Timestamp|
                now.on_clock() && final(self).rows() == old(self).rows().filter(
                    others(#[trigger] expired(user_id, now)),
                ),
            r matches Ok(n) && n == old(self).rows().len() - final(self).rows().len(),
    {
        Ok(self.prune_expired_at(user_id, Timestamp::now()))
    }
}

} // verus!
