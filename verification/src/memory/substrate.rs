//! MemorySubstrate: the memory stores behind a single interface.

use crate::error::{unit_view, ErrorView, OpenFangResult};
use crate::ids::{fresh_uuid_text, hyphenated, is_random_uuid, AgentId, SessionId, UserId};
use crate::json::{json_model, json_models, optional_model};
use crate::memory::devices::{
    device_key, device_tree, saved, without_device, DeviceStore, DeviceView, PairedDevice,
};
use crate::memory::embedding::{packed, unpacked};
use crate::memory::extractions::{
    attributed, audit_trail, audit_views, belonging_to, deleted_extractions_are_gone,
    extraction_key, of_session, storing_date, ExtractionAuditRow, ExtractionRow,
    ExtractionRowView, SessionExtraction, SessionExtractionStore,
};
use crate::memory::kv::{
    entry_key, kept_by, kv_key, pair_views, value_of, KvEntry, KvStore, KvView,
};
use crate::memory::sessions::{
    fresh_session, in_tree, labelled, of_agent, optional_session, rewritten, session_key,
    session_with, unowned, Session, SessionStore, SessionView,
};
use crate::memory::table::{
    by_key, distinct_by, found, kept_twice, others, row_with, selection, stored, views,
};
use crate::memory::task_queue::{
    after_claim, after_complete, claim_tree, claimed, list_tree, listed, next_task, posted,
    status_filter, task_key, text_or_empty, QueuedTask, QueuedTaskView, TaskQueue,
};
use crate::memory::time::{instant_written, Timestamp};
use crate::memory::topic_laws::{deletion_takes_rows_of_pair, deletion_takes_rows_of_user};
use crate::memory::user_agent_memory::{
    agent_index, agent_topic, agent_topic_key, deleted_across_agents_is_forgotten, of_any_agent,
    of_pair, optional_agent_topic,
    AgentTopicView, UserAgentMemoryStore, UserAgentMemoryTopic, UserAgentTopicIndexEntry,
};
use crate::memory::user_memory::{
    contents_at, embedded, expired, index_at, of_user, optional_topic, text_pairs, topic_at,
    topic_key, upserted, with_embedding, without_topic, MemoryTopic, TopicIndexEntry, TopicRow,
    TopicRowView, UserMemoryStore,
};
use crate::memory::user_memory_laws::deleted_user_is_forgotten;
use crate::text::texts;
use vstd::prelude::*;

verus! {

/// Per-bucket row counts returned by [`MemorySubstrate::wipe_user`].
///
/// All three buckets are reported even when zero.
#[derive(Debug, Clone, Copy, PartialEq, Eq, Structural)]
pub struct WipeUserCounts {
    /// Deleted topics of the user.
    pub topics_deleted: usize,
    /// Deleted topics of the user and an agent.
    pub agent_topics_deleted: usize,
    /// Deleted extractions (audit log).
    pub extractions_deleted: usize,
}

/// What came of an import.
#[derive(Debug)]
pub struct ImportReport {
    pub entities_imported: usize,
    pub relations_imported: usize,
    pub memories_imported: usize,
    pub errors: Vec<String>,
}

/// What the substrate holds.
pub struct SubstrateView {
    pub topics: Seq<TopicRowView>,
    pub agent_topics: Seq<AgentTopicView>,
    pub sessions: Seq<SessionView>,
    pub extractions: Seq<ExtractionRowView>,
    pub tasks: Seq<QueuedTaskView>,
    pub devices: Seq<DeviceView>,
    pub entries: Seq<KvView>,
}

/// What is left when everything that belongs to a user in the three structured-memory buckets
/// is wiped.
pub open spec fn wiped(state: SubstrateView, user: UserId) -> SubstrateView {
    SubstrateView {
        topics: state.topics.filter(others(of_user(user))),
        agent_topics: state.agent_topics.filter(others(of_any_agent(user))),
        extractions: state.extractions.filter(others(belonging_to(state.sessions, user))),
        ..state
    }
}

/// Whether `counts` says how many rows each bucket lost.
pub open spec fn counted(
    counts: WipeUserCounts,
    before: SubstrateView,
    after: SubstrateView,
) -> bool {
    &&& counts.topics_deleted == before.topics.len() - after.topics.len()
    &&& counts.agent_topics_deleted == before.agent_topics.len() - after.agent_topics.len()
    &&& counts.extractions_deleted == before.extractions.len() - after.extractions.len()
}

/// The unified memory substrate: the stores for topics, sessions, extractions, tasks, devices
/// and key-value pairs.
#[derive(Debug)]
pub struct MemorySubstrate {
    sessions: SessionStore,
    extractions: SessionExtractionStore,
    user_memory: UserMemoryStore,
    user_agent_memory: UserAgentMemoryStore,
    tasks: TaskQueue,
    devices: DeviceStore,
    kv: KvStore,
}

impl View for MemorySubstrate {
    type V = SubstrateView;

    closed spec fn view(&self) -> SubstrateView {
        SubstrateView {
            topics: self.user_memory.rows(),
            agent_topics: self.user_agent_memory.rows(),
            sessions: self.sessions.rows(),
            extractions: self.extractions.rows(),
            tasks: self.tasks.tasks(),
            devices: self.devices.rows(),
            entries: self.kv.rows(),
        }
    }
}

impl MemorySubstrate {
    /// Create an empty substrate.
    pub fn open_in_memory() -> (r: OpenFangResult<Self>)
        ensures
            r matches Ok(substrate) && substrate@ == (SubstrateView {
                topics: Seq::empty(),
                agent_topics: Seq::empty(),
                sessions: Seq::empty(),
                extractions: Seq::empty(),
                tasks: Seq::empty(),
                devices: Seq::empty(),
                entries: Seq::empty(),
            }),
    {
        Ok(
            MemorySubstrate {
                sessions: SessionStore::new(),
                extractions: SessionExtractionStore::new(),
                user_memory: UserMemoryStore::new(),
                user_agent_memory: UserAgentMemoryStore::new(),
                tasks: TaskQueue::new(),
                devices: DeviceStore::new(),
                kv: KvStore::new(),
            },
        )
    }

    // -----------------------------------------------------------------
    // Key-value pairs
    // -----------------------------------------------------------------

    /// Get a value of an agent.
    pub fn structured_get(&self, agent_id: AgentId, key: &str) -> (r: OpenFangResult<
        Option<serde_json::Value>,
    >)
        ensures
            r matches Ok(value) && optional_model(value) == value_of(
                self@.entries,
                agent_id,
                key@,
            ),
    {
        self.kv.get(agent_id, key)
    }

    /// List all KV pairs for an agent.
    pub fn list_kv(&self, agent_id: AgentId) -> (r: OpenFangResult<
        Vec<(String, serde_json::Value)>,
    >)
        ensures
            r matches Ok(pairs) && pair_views(pairs@) == selection(
                self@.entries,
                kept_by(agent_id),
                entry_key(),
                false,
            ).map_values(|entry: KvView| (entry.key, entry.value)),
    {
        self.kv.list(agent_id)
    }

    /// Delete a KV entry for an agent.
    pub fn structured_delete(&mut self, agent_id: AgentId, key: &str) -> (r: OpenFangResult<()>)
        ensures
            r is Ok,
            final(self)@ == (SubstrateView {
                entries: old(self)@.entries.filter(others(by_key(kv_key(), (agent_id, key@)))),
                ..old(self)@
            }),
    {
        self.kv.delete(agent_id, key)
    }

    /// Set a value of an agent.
    pub fn structured_set(&mut self, agent_id: AgentId, key: &str, value: serde_json::Value) -> (r:
        OpenFangResult<()>)
        ensures
            r is Ok,
            final(self)@ == (SubstrateView {
                entries: stored(
                    old(self)@.entries,
                    kv_key(),
                    KvView { agent_id, key: key@, value: json_model(value) },
                ),
                ..old(self)@
            }),
    {
        self.kv.set(agent_id, key, value)
    }

    // -----------------------------------------------------------------
    // Sessions
    // -----------------------------------------------------------------

    /// Get a session by ID.
    pub fn get_session(&self, session_id: SessionId) -> (r: OpenFangResult<Option<Session>>)
        ensures
            r matches Ok(got) && optional_session(got) == session_with(self@.sessions, session_id),
    {
        self.sessions.get_session(session_id)
    }

    /// Save a session.
    pub fn save_session(&mut self, session: &Session) -> (r: OpenFangResult<()>)
        ensures
            r is Ok,
            final(self)@ == (SubstrateView {
                sessions: stored(old(self)@.sessions, session_key(), session@),
                ..old(self)@
            }),
    {
        self.sessions.save_session(session)
    }

    /// Create a new empty session for an agent owned by `user_id`.
    ///
    /// Callers without a specific user pass the kernel's persistent default identity.
    pub fn create_session(&mut self, agent_id: AgentId, user_id: UserId) -> (r: OpenFangResult<
        Session,
    >)
        ensures
            r matches Ok(session) && is_random_uuid(session.id.0) && session@ == fresh_session(
                session.id,
                agent_id,
                user_id,
            ) && final(self)@ == (SubstrateView {
                sessions: stored(old(self)@.sessions, session_key(), session@),
                ..old(self)@
            }),
    {
        self.sessions.create_session(agent_id, user_id)
    }

    /// Rewrite all sessions that are still tagged with the nil-UUID owner
    /// (the legacy "anonymous bucket" default) to the given `target` user.
    ///
    /// Returns the number of sessions updated. Subsequent calls are no-ops because no nil-UUID
    /// sessions remain.
    pub fn rewrite_nil_user_sessions(&mut self, target: UserId) -> (r: OpenFangResult<usize>)
        ensures
            r matches Ok(n) && n == unowned(old(self)@.sessions),
            final(self)@ == (SubstrateView {
                sessions: rewritten(old(self)@.sessions, target),
                ..old(self)@
            }),
    {
        self.sessions.rewrite_nil_user_sessions(target)
    }

    /// Delete a session by ID.
    pub fn delete_session(&mut self, session_id: SessionId) -> (r: OpenFangResult<()>)
        ensures
            r is Ok,
            final(self)@ == (SubstrateView {
                sessions: old(self)@.sessions.filter(others(by_key(session_key(), session_id))),
                ..old(self)@
            }),
    {
        self.sessions.delete_session(session_id)
    }

    /// Delete all sessions belonging to an agent.
    pub fn delete_agent_sessions(&mut self, agent_id: AgentId) -> (r: OpenFangResult<()>)
        ensures
            r is Ok,
            final(self)@ == (SubstrateView {
                sessions: old(self)@.sessions.filter(others(of_agent(agent_id))),
                ..old(self)@
            }),
    {
        self.sessions.delete_agent_sessions(agent_id)
    }

    /// Set or clear a session label.
    pub fn set_session_label(&mut self, session_id: SessionId, label: Option<&str>) -> (r:
        OpenFangResult<()>)
        ensures
            r is Ok,
            final(self)@ == (SubstrateView {
                sessions: match session_with(old(self)@.sessions, session_id) {
                    Some(session) => stored(
                        old(self)@.sessions,
                        session_key(),
                        SessionView {
                            label: match label {
                                Some(s) => Some(s@),
                                None => None,
                            },
                            ..session
                        },
                    ),
                    None => old(self)@.sessions,
                },
                ..old(self)@
            }),
    {
        self.sessions.set_session_label(session_id, label)
    }

    /// Find a session by label for a given agent.
    pub fn find_session_by_label(&self, agent_id: AgentId, label: &str) -> (r: OpenFangResult<
        Option<Session>,
    >)
        ensures
            r matches Ok(got) && optional_session(got) == found(
                self@.sessions,
                labelled(agent_id, label@),
            ),
    {
        self.sessions.find_session_by_label(agent_id, label)
    }

    /// Delete the session subtree rooted at `session_id` (the session itself
    /// plus any descendants linked via `parent_session_id`). Returns the
    /// number of sessions removed.
    pub fn delete_session_tree(&mut self, session_id: SessionId) -> (r: OpenFangResult<usize>)
        ensures
            r matches Ok(n) && n == old(self)@.sessions.len() - final(self)@.sessions.len(),
            final(self)@ == (SubstrateView {
                sessions: old(self)@.sessions.filter(
                    others(in_tree(old(self)@.sessions, session_id)),
                ),
                ..old(self)@
            }),
    {
        self.sessions.delete_session_tree(session_id)
    }

    // -----------------------------------------------------------------
    // Structured memory: extractions
    // -----------------------------------------------------------------

    /// Append a structured extraction for a session, under a fresh id. It fails only if the fresh
    /// id is taken.
    pub fn append_extraction(&mut self, session_id: SessionId, extraction: &SessionExtraction) -> (r:
        OpenFangResult<()>)
        ensures
            match r {
                Ok(_) => exists|bits: u128, now: Timestamp|
                    is_random_uuid(bits) && now.on_clock() && row_with(
                        old(self)@.extractions,
                        extraction_key(),
                        hyphenated(bits),
                    ) is None && final(self)@ == (SubstrateView {
                        extractions: old(self)@.extractions.push(
                            attributed(
                                old(self)@.sessions,
                                #[trigger] hyphenated(bits),
                                session_id,
                                extraction@,
                                #[trigger] instant_written(now),
                            ),
                        ),
                        ..old(self)@
                    }),
                Err(e) => {
                    &&& e@ == ErrorView::Memory(
                        "UNIQUE constraint failed: session_extractions.id"@,
                    )
                    &&& exists|bits: u128|
                        is_random_uuid(bits) && row_with(
                            old(self)@.extractions,
                            extraction_key(),
                            #[trigger] hyphenated(bits),
                        ) is Some
                    &&& final(self)@ == old(self)@
                },
            },
    {
        let id: String = fresh_uuid_text();
        let now: Timestamp = Timestamp::now();
        self.extractions.append(&self.sessions, id, session_id, extraction, now.to_rfc3339())
    }

    /// Load all structured extractions for a session, oldest first.
    pub fn load_extractions(&self, session_id: SessionId) -> (r: OpenFangResult<
        Vec<SessionExtraction>,
    >)
        ensures
            r matches Ok(got) && views(got@) == selection(
                self@.extractions,
                of_session(session_id),
                storing_date(),
                false,
            ).map_values(|row: ExtractionRowView| row.extraction),
    {
        Ok(self.extractions.load_all(session_id))
    }

    /// Delete all extractions for a session.
    pub fn delete_extractions(&mut self, session_id: SessionId) -> (r: OpenFangResult<()>)
        ensures
            r is Ok,
            final(self)@ == (SubstrateView {
                extractions: old(self)@.extractions.filter(others(of_session(session_id))),
                ..old(self)@
            }),
    {
        self.extractions.delete_for_session(session_id);
        Ok(())
    }

    /// Delete every extraction event attributed to `user_id`, or of a session of theirs.
    ///
    /// Extractions whose session has been deleted are still caught by their attribution.
    /// Returns the number of extractions deleted.
    pub fn delete_user_extractions(&mut self, user_id: UserId) -> (r: OpenFangResult<usize>)
        ensures
            r matches Ok(n) && n == old(self)@.extractions.len() - final(self)@.extractions.len(),
            final(self)@ == (SubstrateView {
                extractions: old(self)@.extractions.filter(
                    others(belonging_to(old(self)@.sessions, user_id)),
                ),
                ..old(self)@
            }),
    {
        Ok(self.extractions.delete_user(&self.sessions, user_id))
    }

    /// List extraction events for a user, newest first, with a `session_deleted` flag.
    pub fn list_user_extraction_audit(&self, user_id: UserId, limit: usize) -> (r: OpenFangResult<
        Vec<ExtractionAuditRow>,
    >)
        ensures
            r matches Ok(rows) && audit_views(rows@) == audit_trail(
                self@.extractions,
                self@.sessions,
                user_id,
                limit as nat,
            ),
    {
        Ok(self.extractions.audit(&self.sessions, user_id, limit))
    }

    // -----------------------------------------------------------------
    // Structured memory: per-user topics
    // -----------------------------------------------------------------

    /// Upsert a user memory topic.
    pub fn upsert_user_topic(&mut self, topic: &MemoryTopic) -> (r: OpenFangResult<()>)
        ensures
            r is Ok,
            final(self)@ == (SubstrateView {
                topics: upserted(old(self)@.topics, topic@),
                ..old(self)@
            }),
    {
        self.user_memory.upsert_topic(topic)
    }

    /// Delete a single user memory topic (used by conflict resolution).
    pub fn delete_user_topic(&mut self, user_id: UserId, topic: &str) -> (r: OpenFangResult<()>)
        ensures
            r is Ok,
            final(self)@ == (SubstrateView {
                topics: without_topic(old(self)@.topics, user_id, topic@),
                ..old(self)@
            }),
    {
        self.user_memory.delete_topic(user_id, topic)
    }

    /// Get the per-user topic index (no content) at `now`.
    pub fn user_topic_index_at(&self, user_id: UserId, now: Timestamp) -> (r: Vec<TopicIndexEntry>)
        ensures
            views(r@) == index_at(self@.topics, user_id, now),
    {
        self.user_memory.get_index_at(user_id, now)
    }

    /// Get the per-user topic index (no content) for session-start injection.
    pub fn user_topic_index(&self, user_id: UserId) -> (r: OpenFangResult<Vec<TopicIndexEntry>>)
        ensures
            r matches Ok(entries) && exists|now: Timestamp|
                now.on_clock() && views(entries@) == #[trigger] index_at(
                    self@.topics,
                    user_id,
                    now,
                ),
    {
        Ok(self.user_topic_index_at(user_id, Timestamp::now()))
    }

    /// Get the names and contents of the topics of a user that can be seen at `now`, by name.
    pub fn user_topic_contents_at(&self, user_id: UserId, now: Timestamp) -> (r: Vec<
        (String, String),
    >)
        ensures
            text_pairs(r@) == contents_at(self@.topics, user_id, now),
    {
        self.user_memory.get_contents_at(user_id, now)
    }

    /// Fetch full content for one user memory topic at `now`. `None` when missing or expired.
    pub fn user_topic_at(&self, user_id: UserId, topic: &str, now: Timestamp) -> (r: Option<
        MemoryTopic,
    >)
        ensures
            optional_topic(r) == topic_at(self@.topics, user_id, topic@, now),
    {
        self.user_memory.get_topic_at(user_id, topic, now)
    }

    /// Fetch full content for one user memory topic. `None` when missing or
    /// expired.
    pub fn user_topic(&self, user_id: UserId, topic: &str) -> (r: OpenFangResult<
        Option<MemoryTopic>,
    >)
        ensures
            r matches Ok(got) && exists|now: Timestamp|
                now.on_clock() && optional_topic(got) == #[trigger] topic_at(
                    self@.topics,
                    user_id,
                    topic@,
                    now,
                ),
    {
        Ok(self.user_topic_at(user_id, topic, Timestamp::now()))
    }

    /// Store an embedding for a user topic, given as the bit patterns of its numbers. No-op when
    /// the topic doesn't exist.
    pub fn store_user_topic_embedding(
        &mut self,
        user_id: UserId,
        topic: &str,
        embedding: &[u32],
    ) -> (r: OpenFangResult<()>)
        ensures
            r is Ok,
            final(self)@ == (SubstrateView {
                topics: with_embedding(old(self)@.topics, user_id, topic@, packed(embedding@)),
                ..old(self)@
            }),
    {
        self.user_memory.store_embedding(user_id, topic, embedding)
    }

    /// The topics of a user that can be seen at `now` and have an embedding, with the bit
    /// patterns of its numbers.
    pub fn user_topic_embeddings_at(&self, user_id: UserId, now: Timestamp) -> (r: (
        Vec<String>,
        Vec<Vec<u32>>,
    ))
        ensures
            r.0@.len() == r.1@.len(),
            texts(r.0@) == self@.topics.filter(embedded(user_id, now)).map_values(
                |row: TopicRowView| row.topic.topic,
            ),
            forall|k: int|
                0 <= k < r.1@.len() ==> (#[trigger] r.1@[k])@
                    == unpacked(
                    self@.topics.filter(embedded(user_id, now))[k].embedding->0,
                ),
    {
        self.user_memory.embeddings_at(user_id, now)
    }

    /// Prune expired topics for a user at `now`.
    pub fn prune_expired_user_topics_at(&mut self, user_id: UserId, now: Timestamp) -> (r: usize)
        ensures
            r == old(self)@.topics.len() - final(self)@.topics.len(),
            final(self)@ == (SubstrateView {
                topics: old(self)@.topics.filter(others(expired(user_id, now))),
                ..old(self)@
            }),
    {
        self.user_memory.prune_expired_at(user_id, now)
    }

    /// Prune expired topics for a user (called opportunistically).
    pub fn prune_expired_user_topics(&mut self, user_id: UserId) -> (r: OpenFangResult<usize>)
        ensures
            r matches Ok(n) && n == old(self)@.topics.len() - final(self)@.topics.len(),
            exists|now: Timestamp|
                now.on_clock() && final(self)@ == (SubstrateView {
                    topics: old(self)@.topics.filter(others(#[trigger] expired(user_id, now))),
                    ..old(self)@
                }),
    {
        Ok(self.prune_expired_user_topics_at(user_id, Timestamp::now()))
    }

    // -----------------------------------------------------------------
    // Structured memory: per-(user, agent) topics
    // -----------------------------------------------------------------

    /// Upsert a per-(user, agent) memory topic.
    pub fn upsert_user_agent_topic(&mut self, topic: &UserAgentMemoryTopic) -> (r: OpenFangResult<
        (),
    >)
        ensures
            r is Ok,
            final(self)@ == (SubstrateView {
                agent_topics: stored(old(self)@.agent_topics, agent_topic_key(), topic@),
                ..old(self)@
            }),
    {
        self.user_agent_memory.upsert_topic(topic)
    }

    /// Get the per-(user, agent) topic index for session-start injection.
    pub fn user_agent_topic_index(&self, user_id: UserId, agent_id: AgentId) -> (r: OpenFangResult<
        Vec<UserAgentTopicIndexEntry>,
    >)
        ensures
            r matches Ok(entries) && views(entries@) == agent_index(
                self@.agent_topics,
                user_id,
                agent_id,
            ),
    {
        self.user_agent_memory.get_index(user_id, agent_id)
    }

    /// Fetch full content for one per-(user, agent) memory topic.
    pub fn user_agent_topic(&self, user_id: UserId, agent_id: AgentId, topic: &str) -> (r:
        OpenFangResult<Option<UserAgentMemoryTopic>>)
        ensures
            r matches Ok(got) && optional_agent_topic(got) == agent_topic(
                self@.agent_topics,
                user_id,
                agent_id,
                topic@,
            ),
    {
        self.user_agent_memory.get_topic(user_id, agent_id, topic)
    }

    /// Delete per-(user, agent) memory for one agent. Returns rows deleted.
    pub fn delete_user_agent_memory(&mut self, user_id: UserId, agent_id: AgentId) -> (r:
        OpenFangResult<usize>)
        ensures
            r matches Ok(n) && n == old(self)@.agent_topics.len() - final(self)@.agent_topics.len(),
            final(self)@ == (SubstrateView {
                agent_topics: old(self)@.agent_topics.filter(others(of_pair(user_id, agent_id))),
                ..old(self)@
            }),
    {
        self.user_agent_memory.delete_user_agent_memory(user_id, agent_id)
    }

    // -----------------------------------------------------------------
    // User wipe (general + per-agent + audit)
    // -----------------------------------------------------------------

    /// Wipe everything attributed to `user_id` across the three structured-memory buckets.
    /// Returns a per-bucket count.
    pub fn wipe_user(&mut self, user_id: UserId) -> (r: OpenFangResult<WipeUserCounts>)
        ensures
            final(self)@ == wiped(old(self)@, user_id),
            r matches Ok(counts) && counted(counts, old(self)@, final(self)@),
    {
        let topics_deleted: usize = match self.user_memory.delete_user_memory(user_id) {
            Ok(n) => n,
            Err(e) => return Err(e),
        };
        let agent_topics_deleted: usize = match self.user_agent_memory.delete_all_user_memory(
            user_id,
        ) {
            Ok(n) => n,
            Err(e) => return Err(e),
        };
        let extractions_deleted: usize = self.extractions.delete_user(&self.sessions, user_id);
        Ok(WipeUserCounts { topics_deleted, agent_topics_deleted, extractions_deleted })
    }

    // -----------------------------------------------------------------
    // Paired devices
    // -----------------------------------------------------------------

    /// Load all paired devices.
    pub fn load_paired_devices(&self) -> (r: OpenFangResult<Vec<serde_json::Value>>)
        ensures
            r matches Ok(values) && json_models(values@) == self@.devices.map_values(
                |device: DeviceView| device_tree(device),
            ),
    {
        self.devices.load_paired_devices()
    }

    /// Save a paired device (insert or replace).
    pub fn save_paired_device(
        &mut self,
        device_id: &str,
        display_name: &str,
        platform: &str,
        paired_at: &str,
        last_seen: &str,
        push_token: Option<&str>,
    ) -> (r: OpenFangResult<()>)
        ensures
            r is Ok,
            final(self)@ == (SubstrateView {
                devices: saved(
                    old(self)@.devices,
                    DeviceView {
                        device_id: device_id@,
                        display_name: display_name@,
                        platform: platform@,
                        paired_at: paired_at@,
                        last_seen: last_seen@,
                        push_token: match push_token {
                            Some(s) => Some(s@),
                            None => None,
                        },
                    },
                ),
                ..old(self)@
            }),
    {
        self.devices.save_paired_device(
            device_id,
            display_name,
            platform,
            paired_at,
            last_seen,
            push_token,
        )
    }

    /// Remove a paired device.
    pub fn remove_paired_device(&mut self, device_id: &str) -> (r: OpenFangResult<()>)
        ensures
            r is Ok,
            final(self)@ == (SubstrateView {
                devices: without_device(old(self)@.devices, device_id@),
                ..old(self)@
            }),
    {
        self.devices.remove_paired_device(device_id)
    }

    // -----------------------------------------------------------------
    // Task queue operations
    // -----------------------------------------------------------------

    /// Post a new task to the shared queue. Returns the task ID: a fresh one. It fails only if
    /// the fresh id is taken.
    pub fn task_post(
        &mut self,
        title: &str,
        description: &str,
        assigned_to: Option<&str>,
        created_by: Option<&str>,
    ) -> (r: OpenFangResult<String>)
        ensures
            match r {
                Ok(id) => {
                    &&& row_with(old(self)@.tasks, task_key(), id@) is None
                    &&& exists|bits: u128| is_random_uuid(bits) && id@ == #[trigger] hyphenated(bits)
                    &&& exists|now: Timestamp|
                        now.on_clock() && final(self)@ == (SubstrateView {
                            tasks: old(self)@.tasks.push(
                                posted(
                                    id@,
                                    title@,
                                    description@,
                                    text_or_empty(assigned_to),
                                    text_or_empty(created_by),
                                    #[trigger] instant_written(now),
                                ),
                            ),
                            ..old(self)@
                        })
                },
                Err(e) => {
                    &&& e@ == ErrorView::Memory("UNIQUE constraint failed: task_queue.id"@)
                    &&& exists|bits: u128|
                        is_random_uuid(bits) && row_with(
                            old(self)@.tasks,
                            task_key(),
                            #[trigger] hyphenated(bits),
                        ) is Some
                    &&& final(self)@ == old(self)@
                },
            },
    {
        self.tasks.task_post(title, description, assigned_to, created_by)
    }

    /// Claim the next pending task (optionally for a specific assignee). Returns task JSON or
    /// None.
    pub fn task_claim(&mut self, agent_id: &str) -> (r: OpenFangResult<Option<serde_json::Value>>)
        ensures
            final(self)@ == (SubstrateView {
                tasks: after_claim(old(self)@.tasks, agent_id@),
                ..old(self)@
            }),
            r matches Ok(told) && match next_task(old(self)@.tasks, agent_id@) {
                Some(at) => told matches Some(value) && json_model(value) == claim_tree(
                    claimed(old(self)@.tasks[at], agent_id@),
                ),
                None => told is None,
            },
    {
        self.tasks.task_claim(agent_id)
    }

    /// Mark a task as completed with a result string.
    pub fn task_complete(&mut self, task_id: &str, result: &str) -> (r: OpenFangResult<()>)
        ensures
            unit_view(r) == match row_with(old(self)@.tasks, task_key(), task_id@) {
                Some(_) => Ok(()),
                None => Err(ErrorView::Internal("Task not found: "@ + task_id@)),
            },
            exists|now: Timestamp|
                now.on_clock() && final(self)@ == (SubstrateView {
                    tasks: after_complete(
                        old(self)@.tasks,
                        task_id@,
                        result@,
                        #[trigger] instant_written(now),
                    ),
                    ..old(self)@
                }),
    {
        self.tasks.task_complete(task_id, result)
    }

    /// List tasks, optionally filtered by status.
    pub fn task_list(&self, status: Option<&str>) -> (r: OpenFangResult<Vec<serde_json::Value>>)
        ensures
            r matches Ok(values) && json_models(values@) == listed(
                self@.tasks,
                status_filter(status),
            ).map_values(|task: QueuedTaskView| list_tree(task)),
    {
        self.tasks.task_list(status)
    }

    // -----------------------------------------------------------------
    // Export and import
    // -----------------------------------------------------------------

    /// Export the memory: nothing is exported yet.
    pub fn export(&self) -> (r: OpenFangResult<Vec<u8>>)
        ensures
            r matches Ok(data) && data@.len() == 0,
    {
        Ok(Vec::new())
    }

    /// Import memory: nothing is imported yet, and the report says so.
    pub fn import(&mut self, _data: &[u8]) -> (r: OpenFangResult<ImportReport>)
        ensures
            final(self)@ == old(self)@,
            r matches Ok(report) && report.entities_imported == 0 && report.relations_imported == 0
                && report.memories_imported == 0 && texts(report.errors@) == seq![
                "Import not yet implemented in Phase 1"@,
            ],
    {
        let mut errors: Vec<String> = Vec::new();
        errors.push("Import not yet implemented in Phase 1".to_string());
        assert(texts(errors@) =~= seq!["Import not yet implemented in Phase 1"@]);
        Ok(
            ImportReport {
                entities_imported: 0,
                relations_imported: 0,
                memories_imported: 0,
                errors,
            },
        )
    }

    // -----------------------------------------------------------------
    // Rows, as they are kept between runs
    // -----------------------------------------------------------------

    /// Every stored topic.
    pub fn topic_rows(&self) -> (r: Vec<TopicRow>)
        ensures
            views(r@) == self@.topics,
            distinct_by(self@.topics, topic_key()),
    {
        self.user_memory.all_rows()
    }

    /// Every stored topic of a user and an agent.
    pub fn agent_topic_rows(&self) -> (r: Vec<UserAgentMemoryTopic>)
        ensures
            views(r@) == self@.agent_topics,
            distinct_by(self@.agent_topics, agent_topic_key()),
    {
        self.user_agent_memory.all_rows()
    }

    /// Every session.
    pub fn session_rows(&self) -> (r: Vec<Session>)
        ensures
            views(r@) == self@.sessions,
            distinct_by(self@.sessions, session_key()),
    {
        self.sessions.all_rows()
    }

    /// Every extraction.
    pub fn extraction_rows(&self) -> (r: Vec<ExtractionRow>)
        ensures
            views(r@) == self@.extractions,
            distinct_by(self@.extractions, extraction_key()),
    {
        self.extractions.all_rows()
    }

    /// Every task.
    pub fn task_rows(&self) -> (r: Vec<QueuedTask>)
        ensures
            views(r@) == self@.tasks,
            distinct_by(self@.tasks, task_key()),
    {
        self.tasks.all_tasks()
    }

    /// Every paired device.
    pub fn device_rows(&self) -> (r: Vec<PairedDevice>)
        ensures
            views(r@) == self@.devices,
            distinct_by(self@.devices, device_key()),
    {
        self.devices.all_rows()
    }

    /// Every key-value pair.
    pub fn entry_rows(&self) -> (r: Vec<KvEntry>)
        ensures
            views(r@) == self@.entries,
            distinct_by(self@.entries, kv_key()),
    {
        self.kv.all_rows()
    }

    /// Put back a topic as it was stored.
    pub fn restore_topic(&mut self, row: TopicRow)
        ensures
            final(self)@ == (SubstrateView {
                topics: stored(old(self)@.topics, topic_key(), row@),
                ..old(self)@
            }),
    {
        self.user_memory.restore(row);
    }

    /// Put back an extraction as it was stored.
    pub fn restore_extraction(&mut self, row: ExtractionRow)
        ensures
            final(self)@ == (SubstrateView {
                extractions: stored(old(self)@.extractions, extraction_key(), row@),
                ..old(self)@
            }),
    {
        self.extractions.restore(row);
    }

    /// Put back a task as it was stored.
    pub fn restore_task(&mut self, task: QueuedTask)
        ensures
            final(self)@ == (SubstrateView {
                tasks: stored(old(self)@.tasks, task_key(), task@),
                ..old(self)@
            }),
    {
        self.tasks.restore(task);
    }
}

/// A wiped user has no topic left, of their own or with an agent, and no extraction that
/// belongs to them.
pub proof fn wiped_user_is_forgotten(
    state: SubstrateView,
    user: UserId,
    agent: AgentId,
    topic: Seq<char>,
    now: Timestamp,
    row: ExtractionRowView,
)
    requires
        distinct_by(state.topics, topic_key()),
        distinct_by(state.agent_topics, agent_topic_key()),
        belonging_to(state.sessions, user)(row),
    ensures
        topic_at(wiped(state, user).topics, user, topic, now) is None,
        agent_topic(wiped(state, user).agent_topics, user, agent, topic) is None,
        !wiped(state, user).extractions.contains(row),
{
    deleted_user_is_forgotten(state.topics, user, user, topic, now);
    deleted_across_agents_is_forgotten(state.agent_topics, user, user, agent, topic);
    deleted_extractions_are_gone(state.extractions, state.sessions, user, row);
}

/// Wiping a user touches nothing of another: neither topics, of their own or with an agent, nor
/// extractions that do not belong to the wiped user, nor sessions, tasks, devices and key-value
/// pairs.
pub proof fn wipe_is_scoped(
    state: SubstrateView,
    user: UserId,
    other: UserId,
    agent: AgentId,
    topic: Seq<char>,
    now: Timestamp,
    row: ExtractionRowView,
)
    requires
        distinct_by(state.topics, topic_key()),
        distinct_by(state.agent_topics, agent_topic_key()),
        other != user,
        !belonging_to(state.sessions, user)(row),
    ensures
        topic_at(wiped(state, user).topics, other, topic, now) == topic_at(
            state.topics,
            other,
            topic,
            now,
        ),
        agent_topic(wiped(state, user).agent_topics, other, agent, topic) == agent_topic(
            state.agent_topics,
            other,
            agent,
            topic,
        ),
        wiped(state, user).extractions.contains(row) <==> state.extractions.contains(row),
        wiped(state, user).sessions == state.sessions,
        wiped(state, user).tasks == state.tasks,
        wiped(state, user).devices == state.devices,
        wiped(state, user).entries == state.entries,
{
    deleted_user_is_forgotten(state.topics, user, other, topic, now);
    deleted_across_agents_is_forgotten(state.agent_topics, user, other, agent, topic);
    deleted_extractions_are_gone(state.extractions, state.sessions, user, row);
}

/// Wiping a user again changes nothing, so all counts are zero.
pub proof fn wipe_is_idempotent(state: SubstrateView, user: UserId, counts: WipeUserCounts)
    requires
        counted(counts, wiped(state, user), wiped(wiped(state, user), user)),
    ensures
        wiped(wiped(state, user), user) == wiped(state, user),
        counts.topics_deleted == 0,
        counts.agent_topics_deleted == 0,
        counts.extractions_deleted == 0,
{
    kept_twice(state.topics, others(of_user(user)));
    kept_twice(state.agent_topics, others(of_any_agent(user)));
    kept_twice(state.extractions, others(belonging_to(state.sessions, user)));
}

/// Wiping a user deletes their topics, alone and with every agent, and the extractions that belong
/// to them; their sessions stay, and so does everything else.
pub proof fn wipe_takes_three_kinds_of_rows(
    state: SubstrateView,
    user: UserId,
    topic: TopicRowView,
    pair_topic: AgentTopicView,
    extraction: ExtractionRowView,
)
    ensures
        wiped(state, user).topics.contains(topic) <==> state.topics.contains(topic)
            && topic.topic.user_id != user,
        wiped(state, user).agent_topics.contains(pair_topic) <==> state.agent_topics.contains(
            pair_topic,
        ) && pair_topic.user_id != user,
        wiped(state, user).extractions.contains(extraction) ==> state.extractions.contains(
            extraction,
        ) && extraction.user_id != user,
        wiped(state, user).sessions == state.sessions,
        wiped(state, user).tasks == state.tasks,
        wiped(state, user).devices == state.devices,
        wiped(state, user).entries == state.entries,
{
    deletion_takes_rows_of_user(state.topics, user, topic);
    deletion_takes_rows_of_pair(state.agent_topics, user, AgentId(0), pair_topic);
    deleted_extractions_are_gone(state.extractions, state.sessions, user, extraction);
}

/// The counts of a wipe say of each kind of rows how many there are fewer.
pub proof fn wipe_counts_each_kind(
    counts: WipeUserCounts,
    before: SubstrateView,
    after: SubstrateView,
)
    requires
        counted(counts, before, after),
    ensures
        before.topics.len() == after.topics.len() + counts.topics_deleted,
        before.agent_topics.len() == after.agent_topics.len() + counts.agent_topics_deleted,
        before.extractions.len() == after.extractions.len() + counts.extractions_deleted,
{
}

} // verus!
