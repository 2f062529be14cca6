//! Laws of what the memory as a whole answers: what was handed to one of its operations comes back
//! from another.

use crate::ids::{hyphenated, AgentId, UserId};
use crate::json::{json_model, json_models, member, JsonTree};
use crate::memory::devices::{device_tree, DeviceView};
use crate::memory::extractions::{
    audit_views, ExtractionAuditRow, ExtractionRowView, SessionExtractionStore,
};
use crate::memory::kv::{kv_key, set_value_is_read, KvView};
use crate::memory::record_laws::{
    audit_tells_of_extractions, device_is_told_by_fields, one_device_is_saved_or_removed,
};
use crate::memory::sessions::{session_with, SessionStore};
use crate::memory::substrate::{wiped_user_is_forgotten, MemorySubstrate, WipeUserCounts};
use crate::memory::table::distinct_by;
use crate::memory::task_laws::{list_holds_what_is_asked, list_tells_every_field};
use crate::memory::task_queue::{list_tree, listed};
use crate::memory::time::Timestamp;
use crate::memory::user_agent_memory::{
    agent_topic_key, written_agent_topic_is_read, UserAgentMemoryTopic,
};
use crate::memory::user_memory::{topic_key, MemoryTopic};
use crate::memory::user_memory_laws::written_topic_is_read;
use vstd::prelude::*;

verus! {

/// A task that was posted is listed with the title, the description, the agent and the poster with
/// which it was posted.
pub proof fn posted_task_is_listed(
    before: &mut MemorySubstrate,
    after: &MemorySubstrate,
    title: &str,
    description: &str,
    assigned_to: &str,
    created_by: &str,
    id: String,
    told: Vec<serde_json::Value>,
)
    requires
        call_ensures(
            MemorySubstrate::task_post,
            (before, title, description, Some(assigned_to), Some(created_by)),
            Ok(id),
        ),
        after@ == final(before)@,
        call_ensures(MemorySubstrate::task_list, (after, None::<&str>), Ok(told)),
    ensures
        exists|i: int|
            {
                &&& 0 <= i < told@.len()
                &&& member(json_model(#[trigger] told@[i]), "id"@) == Some(JsonTree::Text(id@))
                &&& member(json_model(told@[i]), "title"@) == Some(JsonTree::Text(title@))
                &&& member(json_model(told@[i]), "description"@) == Some(
                    JsonTree::Text(description@),
                )
                &&& member(json_model(told@[i]), "status"@) == Some(JsonTree::Text("pending"@))
                &&& member(json_model(told@[i]), "assigned_to"@) == Some(
                    JsonTree::Text(assigned_to@),
                )
                &&& member(json_model(told@[i]), "created_by"@) == Some(
                    JsonTree::Text(created_by@),
                )
            },
        final(before)@.tasks.len() == old(before)@.tasks.len() + 1,
{
    let tasks = after@.tasks;
    let last = tasks.len() - 1;
    let task = tasks[last];
    assert(tasks.contains(task));
    list_holds_what_is_asked(tasks, None, task);
    let all = listed(tasks, None);
    let i = choose|i: int| 0 <= i < all.len() && all[i] == task;
    assert(json_models(told@).len() == told@.len() && json_models(told@).len() == all.len());
    assert(json_models(told@)[i] == list_tree(all[i]));
    assert(json_model(told@[i]) == list_tree(task));
    list_tells_every_field(task);
}

/// A value that an agent has set is what it gets under its key.
pub proof fn set_value_is_remembered(
    before: &mut MemorySubstrate,
    after: &MemorySubstrate,
    agent: AgentId,
    key: &str,
    value: serde_json::Value,
    got: Option<serde_json::Value>,
)
    requires
        distinct_by(old(before)@.entries, kv_key()),
        call_ensures(MemorySubstrate::structured_set, (before, agent, key, value), Ok(())),
        after@ == final(before)@,
        call_ensures(MemorySubstrate::structured_get, (after, agent, key), Ok(got)),
    ensures
        got matches Some(v) && json_model(v) == json_model(value),
        final(before)@.sessions == old(before)@.sessions,
        final(before)@.topics == old(before)@.topics,
        final(before)@.agent_topics == old(before)@.agent_topics,
        final(before)@.extractions == old(before)@.extractions,
        final(before)@.tasks == old(before)@.tasks,
        final(before)@.devices == old(before)@.devices,
{
    set_value_is_read(
        old(before)@.entries,
        KvView { agent_id: agent, key: key@, value: json_model(value) },
        agent,
        key@,
    );
}

/// A device that was saved is loaded with each of its fields as it was handed over.
pub proof fn saved_device_is_loaded(
    before: &mut MemorySubstrate,
    after: &MemorySubstrate,
    device_id: &str,
    display_name: &str,
    platform: &str,
    paired_at: &str,
    last_seen: &str,
    told: Vec<serde_json::Value>,
)
    requires
        call_ensures(
            MemorySubstrate::save_paired_device,
            (before, device_id, display_name, platform, paired_at, last_seen, None::<&str>),
            Ok(()),
        ),
        after@ == final(before)@,
        call_ensures(MemorySubstrate::load_paired_devices, (after,), Ok(told)),
    ensures
        exists|i: int|
            {
                &&& 0 <= i < told@.len()
                &&& member(json_model(#[trigger] told@[i]), "device_id"@) == Some(
                    JsonTree::Text(device_id@),
                )
                &&& member(json_model(told@[i]), "display_name"@) == Some(
                    JsonTree::Text(display_name@),
                )
                &&& member(json_model(told@[i]), "platform"@) == Some(JsonTree::Text(platform@))
                &&& member(json_model(told@[i]), "paired_at"@) == Some(JsonTree::Text(paired_at@))
                &&& member(json_model(told@[i]), "last_seen"@) == Some(JsonTree::Text(last_seen@))
                &&& member(json_model(told@[i]), "push_token"@) == Some(JsonTree::Null)
            },
{
    let device = DeviceView {
        device_id: device_id@,
        display_name: display_name@,
        platform: platform@,
        paired_at: paired_at@,
        last_seen: last_seen@,
        push_token: None,
    };
    one_device_is_saved_or_removed(old(before)@.devices, device, device);
    let rows = after@.devices;
    let i = choose|i: int| 0 <= i < rows.len() && rows[i] == device;
    assert(json_models(told@).len() == told@.len() && json_models(told@).len() == rows.len());
    assert(json_models(told@)[i] == device_tree(rows[i]));
    assert(json_model(told@[i]) == device_tree(device));
    device_is_told_by_fields(device);
}

/// A topic of a user that was written is read back with all of its fields until it expires.
pub proof fn written_topic_is_remembered(
    before: &mut MemorySubstrate,
    after: &MemorySubstrate,
    written: &MemoryTopic,
    name: &str,
    now: Timestamp,
    got: Option<MemoryTopic>,
)
    requires
        distinct_by(old(before)@.topics, topic_key()),
        call_ensures(MemorySubstrate::upsert_user_topic, (before, written), Ok(())),
        after@ == final(before)@,
        name@ == written.topic@,
        call_ensures(MemorySubstrate::user_topic_at, (after, written.user_id, name, now), got),
    ensures
        match written.expires_at {
            Some(at) if at.seconds <= now.seconds => got is None,
            _ => got matches Some(t) && {
                &&& t.user_id == written.user_id
                &&& t.topic@ == written.topic@
                &&& t.summary@ == written.summary@
                &&& t.content@ == written.content@
                &&& t.updated_at == written.updated_at
                &&& t.expires_at == written.expires_at
            },
        },
{
    written_topic_is_read(old(before)@.topics, written@, written.user_id, name@, now);
}

/// A topic of a user and an agent that was written is read back by the two with all of its fields.
pub proof fn written_agent_topic_is_remembered(
    before: &mut MemorySubstrate,
    after: &MemorySubstrate,
    written: &UserAgentMemoryTopic,
    name: &str,
    got: Option<UserAgentMemoryTopic>,
)
    requires
        distinct_by(old(before)@.agent_topics, agent_topic_key()),
        call_ensures(MemorySubstrate::upsert_user_agent_topic, (before, written), Ok(())),
        after@ == final(before)@,
        name@ == written.topic@,
        call_ensures(
            MemorySubstrate::user_agent_topic,
            (after, written.user_id, written.agent_id, name),
            Ok(got),
        ),
    ensures
        got matches Some(t) && {
            &&& t.user_id == written.user_id
            &&& t.agent_id == written.agent_id
            &&& t.topic@ == written.topic@
            &&& t.summary@ == written.summary@
            &&& t.content@ == written.content@
            &&& t.updated_at == written.updated_at
        },
{
    written_agent_topic_is_read(
        old(before)@.agent_topics,
        written@,
        written.user_id,
        written.agent_id,
        name@,
    );
}

/// Wiping a user leaves nothing of theirs to read, alone or with an agent, and no extraction that
/// is attributed to them, and says how many rows of each kind went.
pub proof fn wiped_user_is_not_remembered(
    before: &mut MemorySubstrate,
    after: &MemorySubstrate,
    user: UserId,
    counts: WipeUserCounts,
    agent: AgentId,
    name: &str,
    now: Timestamp,
    topic: Option<MemoryTopic>,
    agent_topic: Option<UserAgentMemoryTopic>,
    row: ExtractionRowView,
)
    requires
        distinct_by(old(before)@.topics, topic_key()),
        distinct_by(old(before)@.agent_topics, agent_topic_key()),
        call_ensures(MemorySubstrate::wipe_user, (before, user), Ok(counts)),
        after@ == final(before)@,
        row.user_id == user,
        call_ensures(MemorySubstrate::user_topic_at, (after, user, name, now), topic),
        call_ensures(
            MemorySubstrate::user_agent_topic,
            (after, user, agent, name),
            Ok(agent_topic),
        ),
    ensures
        topic is None,
        agent_topic is None,
        !final(before)@.extractions.contains(row),
        final(before)@.sessions == old(before)@.sessions,
        old(before)@.topics.len() == final(before)@.topics.len() + counts.topics_deleted,
        old(before)@.agent_topics.len() == final(before)@.agent_topics.len()
            + counts.agent_topics_deleted,
        old(before)@.extractions.len() == final(before)@.extractions.len()
            + counts.extractions_deleted,
{
    wiped_user_is_forgotten(old(before)@, user, agent, name@, now, row);
}

/// The audit trail of a user has at most as many rows as are asked for; each tells of an extraction
/// that is attributed to the user its id, its session, its agent and its date, and whether its
/// session is gone.
pub proof fn audit_is_told(
    store: &SessionExtractionStore,
    sessions: &SessionStore,
    user: UserId,
    limit: usize,
    told: Vec<ExtractionAuditRow>,
    i: int,
)
    requires
        call_ensures(SessionExtractionStore::audit, (store, sessions, user, limit), told),
        0 <= i < told@.len(),
    ensures
        told@.len() <= limit,
        exists|p: int|
            {
                &&& 0 <= p < store.rows().len()
                &&& (#[trigger] store.rows()[p]).user_id == user
                &&& told@[i].0@ == store.rows()[p].id
                &&& told@[i].1@ == hyphenated(store.rows()[p].session_id.0)
                &&& told@[i].2@ == hyphenated(store.rows()[p].agent_id.0)
                &&& told@[i].3@ == store.rows()[p].created_at
                &&& told@[i].4 == (session_with(
                    sessions.rows(),
                    store.rows()[p].session_id,
                ) is None)
            },
{
    assert(audit_views(told@).len() == told@.len());
    assert(audit_views(told@)[i] == (
        told@[i].0@,
        told@[i].1@,
        told@[i].2@,
        told@[i].3@,
        told@[i].4,
    ));
    audit_tells_of_extractions(store.rows(), sessions.rows(), user, limit as nat, i);
}

} // verus!
