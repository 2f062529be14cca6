//! Laws of what the memory stores answer: how what one operation gives back follows from what was
//! handed to another.

use crate::error::{ErrorView, OpenFangError};
use crate::ids::{AgentId, SessionId, UserId};
use crate::json::{json_model, json_models, member, JsonTree};
use crate::memory::backend::{SemanticBackend, StorageConfig};
use crate::memory::devices::{device_tree, DeviceStore, DeviceView};
use crate::memory::embedding::{packed, unpack_undoes_pack};
use crate::memory::extractions::{
    attributed, deleted_extractions_are_gone, of_session, storing_date, ExtractionRowView,
    SessionExtraction, SessionExtractionStore,
};
use crate::memory::kv::{
    deleted_value_is_gone, kv_key, pair_views, set_value_is_read, KvStore, KvView,
};
use crate::memory::record_laws::{
    device_is_told_by_fields, extraction_belongs_by_row_or_session, gateway_needs_all_settings,
    list_has_what_is_read, one_device_is_saved_or_removed,
};
use crate::memory::session_laws::{
    deleted_parent_takes_children, deletion_takes_sessions_of_agent, label_finds_first_session,
    only_unowned_sessions_are_given_away, unowned_sessions_are_counted,
};
use crate::memory::sessions::{
    created_session_is_found, deleted_session_is_gone, session_key, session_with, Session,
    SessionStore, SessionView,
};
use crate::memory::table::{
    by_key, distinct_by, first, first_finds, found_has_key, others, row_is_found, row_with,
    selection, selection_holds_picked, stored, stored_is_found, views,
};
use crate::memory::task_laws::{
    claim_tells_every_field, completion_marks_one_task, list_holds_what_is_asked,
    list_tells_every_field, posted_task_is_told,
};
use crate::memory::task_queue::{
    claimed, list_tree, listed, next_task, task_key, text_or_empty, TaskQueue,
};
use crate::memory::time::Timestamp;
use crate::memory::topic_laws::{
    agent_entry_is_its_topic, agent_topic_has_its_entry, embedded_topics_are_searched,
    pruning_deletes_what_expired, read_agent_topic_is_stored,
};
use crate::memory::user_agent_memory::{
    agent_index, agent_topic_key, deleted_across_agents_is_forgotten, deleted_pair_is_forgotten,
    written_agent_topic_is_read, UserAgentMemoryStore, UserAgentMemoryTopic,
    UserAgentTopicIndexEntry,
};
use crate::memory::user_memory::{
    embedded, text_pairs, topic_key, MemoryTopic, TopicIndexEntry, TopicRowView, UserMemoryStore,
};
use crate::memory::user_memory_laws::{
    contents_follow_index, deleted_topic_is_gone, deleted_user_is_forgotten,
    index_names_what_is_read, pruning_is_not_seen, written_topic_is_read,
};
use crate::text::{optional_text, texts};
use vstd::prelude::*;

verus! {

/// A task is posted under an id, and then claimed: who claims it is told the title and the
/// description with which it was posted, by whom and when, and that it is theirs and in progress.
pub proof fn claimed_task_is_told_as_posted(
    before: &mut TaskQueue,
    after: &mut TaskQueue,
    id: &str,
    created_at: &str,
    title: &str,
    description: &str,
    assigned_to: Option<&str>,
    created_by: Option<&str>,
    agent: &str,
    told: serde_json::Value,
)
    requires
        distinct_by(old(before).tasks(), task_key()),
        call_ensures(
            TaskQueue::post,
            (before, id, created_at, title, description, assigned_to, created_by),
            Ok(()),
        ),
        old(after).tasks() == final(before).tasks(),
        call_ensures(TaskQueue::task_claim, (after, agent), Ok(Some(told))),
        member(json_model(told), "id"@) == Some(JsonTree::Text(id@)),
    ensures
        member(json_model(told), "title"@) == Some(JsonTree::Text(title@)),
        member(json_model(told), "description"@) == Some(JsonTree::Text(description@)),
        member(json_model(told), "status"@) == Some(JsonTree::Text("in_progress"@)),
        member(json_model(told), "assigned_to"@) == Some(JsonTree::Text(agent@)),
        created_by matches Some(by) ==> member(json_model(told), "created_by"@) == Some(
            JsonTree::Text(by@),
        ),
        member(json_model(told), "created_at"@) == Some(JsonTree::Text(created_at@)),
{
    let tasks = old(before).tasks();
    posted_task_is_told(
        tasks,
        id@,
        title@,
        description@,
        text_or_empty(assigned_to),
        text_or_empty(created_by),
        created_at@,
        agent@,
    );
    let now = final(before).tasks();
    let at = next_task(now, agent@)->0;
    claim_tells_every_field(claimed(now[at], agent@));
}

/// A task that was posted is listed, with the title, the description, the agent and the poster
/// with which it was posted, as pending and without a result.
pub proof fn listed_task_is_told_as_posted(
    before: &mut TaskQueue,
    after: &TaskQueue,
    id: &str,
    created_at: &str,
    title: &str,
    description: &str,
    assigned_to: &str,
    created_by: &str,
    told: Vec<serde_json::Value>,
)
    requires
        distinct_by(old(before).tasks(), task_key()),
        call_ensures(
            TaskQueue::post,
            (before, id, created_at, title, description, Some(assigned_to), Some(created_by)),
            Ok(()),
        ),
        after.tasks() == final(before).tasks(),
        call_ensures(TaskQueue::task_list, (after, None::<&str>), Ok(told)),
    ensures
        exists|i: int|
            {
                &&& 0 <= i < told@.len()
                &&& member(json_model(#[trigger] told@[i]), "id"@) == Some(JsonTree::Text(id@))
                &&& member(json_model(told@[i]), "title"@) == Some(JsonTree::Text(title@))
                &&& member(json_model(told@[i]), "description"@) == Some(
                    JsonTree::Text(description@),
                )
                &&& member(json_model(told@[i]), "status"@) == Some(JsonTree::Text("pending"@))
                &&& member(json_model(told@[i]), "assigned_to"@) == Some(
                    JsonTree::Text(assigned_to@),
                )
                &&& member(json_model(told@[i]), "created_by"@) == Some(
                    JsonTree::Text(created_by@),
                )
                &&& member(json_model(told@[i]), "created_at"@) == Some(
                    JsonTree::Text(created_at@),
                )
                &&& member(json_model(told@[i]), "completed_at"@) == Some(JsonTree::Null)
                &&& member(json_model(told@[i]), "result"@) == Some(JsonTree::Text(""@))
            },
{
    let tasks = old(before).tasks();
    posted_task_is_told(
        tasks,
        id@,
        title@,
        description@,
        assigned_to@,
        created_by@,
        created_at@,
        id@,
    );
    let now = final(before).tasks();
    let all = listed(now, None);
    let i = choose|i: int| 0 <= i < all.len() && (#[trigger] all[i]).id == id@;
    assert(json_models(told@).len() == told@.len() && json_models(told@).len() == all.len());
    assert(json_models(told@)[i] == list_tree(all[i]));
    assert(json_model(told@[i]) == list_tree(all[i]));
}

/// A completed task is found with its result, at its date, by whoever lists the tasks.
pub proof fn completed_task_is_told_with_result(
    before: &mut TaskQueue,
    after: &TaskQueue,
    id: &str,
    result: &str,
    date: &str,
    told: Vec<serde_json::Value>,
)
    requires
        distinct_by(old(before).tasks(), task_key()),
        call_ensures(TaskQueue::complete, (before, id, result, date), Ok(())),
        after.tasks() == final(before).tasks(),
        call_ensures(TaskQueue::task_list, (after, Some("completed")), Ok(told)),
    ensures
        exists|i: int|
            {
                &&& 0 <= i < told@.len()
                &&& member(json_model(#[trigger] told@[i]), "id"@) == Some(JsonTree::Text(id@))
                &&& member(json_model(told@[i]), "status"@) == Some(JsonTree::Text("completed"@))
                &&& member(json_model(told@[i]), "result"@) == Some(JsonTree::Text(result@))
                &&& member(json_model(told@[i]), "completed_at"@) == Some(JsonTree::Text(date@))
            },
{
    let tasks = old(before).tasks();
    first_finds(tasks, by_key(task_key(), id@));
    let at = first(tasks, by_key(task_key(), id@));
    assert(row_with(tasks, task_key(), id@) is Some);
    completion_marks_one_task(tasks, at, result@, date@);
    let now = final(before).tasks();
    let done = now[at];
    assert(now.contains(done));
    list_holds_what_is_asked(now, Some("completed"@), done);
    let all = listed(now, Some("completed"@));
    let i = choose|i: int| 0 <= i < all.len() && all[i] == done;
    assert(json_models(told@).len() == told@.len() && json_models(told@).len() == all.len());
    assert(json_models(told@)[i] == list_tree(all[i]));
    assert(json_model(told@[i]) == list_tree(done));
    list_tells_every_field(done);
}

/// An id that is taken is refused, and one that no task has cannot be completed.
pub proof fn task_ids_are_unique(
    queue: &mut TaskQueue,
    id: &str,
    created_at: &str,
    title: &str,
    description: &str,
    assigned_to: Option<&str>,
    created_by: Option<&str>,
    r: Result<(), OpenFangError>,
    i: int,
)
    requires
        call_ensures(
            TaskQueue::post,
            (queue, id, created_at, title, description, assigned_to, created_by),
            r,
        ),
        0 <= i < old(queue).tasks().len(),
        old(queue).tasks()[i].id == id@,
    ensures
        r matches Err(e) && e@ == ErrorView::Memory("UNIQUE constraint failed: task_queue.id"@),
        final(queue).tasks() == old(queue).tasks(),
{
    let tasks = old(queue).tasks();
    first_finds(tasks, by_key(task_key(), id@));
    let at = first(tasks, by_key(task_key(), id@));
    if at >= tasks.len() {
        assert(!by_key(task_key(), id@)(tasks[i]));
    }
}

/// Each entry of the index of a user and an agent has the name of a topic, and the summary and the
/// date of the topic that is read under that name.
pub proof fn agent_index_tells_topics(
    store: &UserAgentMemoryStore,
    user: UserId,
    agent: AgentId,
    entries: Vec<UserAgentTopicIndexEntry>,
    i: int,
    name: &str,
    topic: Option<UserAgentMemoryTopic>,
)
    requires
        distinct_by(store.rows(), agent_topic_key()),
        call_ensures(UserAgentMemoryStore::get_index, (store, user, agent), Ok(entries)),
        0 <= i < entries@.len(),
        entries@[i].topic@ == name@,
        call_ensures(UserAgentMemoryStore::get_topic, (store, user, agent, name), Ok(topic)),
    ensures
        topic matches Some(t) && {
            &&& t.user_id == user
            &&& t.agent_id == agent
            &&& t.topic@ == name@
            &&& entries@[i].summary@ == t.summary@
            &&& entries@[i].updated_at == t.updated_at
        },
{
    assert(views(entries@).len() == entries@.len());
    assert(views(entries@)[i] == entries@[i]@);
    agent_entry_is_its_topic(store.rows(), user, agent, i);
}

/// A topic of a user and an agent that was written is read back with all of its fields, and is in
/// the index of the two with its name, its summary and its date.
pub proof fn written_agent_topic_is_read_and_indexed(
    before: &mut UserAgentMemoryStore,
    after: &UserAgentMemoryStore,
    written: &UserAgentMemoryTopic,
    name: &str,
    topic: Option<UserAgentMemoryTopic>,
    entries: Vec<UserAgentTopicIndexEntry>,
)
    requires
        distinct_by(old(before).rows(), agent_topic_key()),
        call_ensures(UserAgentMemoryStore::upsert_topic, (before, written), Ok(())),
        after.rows() == final(before).rows(),
        name@ == written.topic@,
        call_ensures(
            UserAgentMemoryStore::get_topic,
            (after, written.user_id, written.agent_id, name),
            Ok(topic),
        ),
        call_ensures(
            UserAgentMemoryStore::get_index,
            (after, written.user_id, written.agent_id),
            Ok(entries),
        ),
    ensures
        topic matches Some(t) && {
            &&& t.user_id == written.user_id
            &&& t.agent_id == written.agent_id
            &&& t.topic@ == written.topic@
            &&& t.summary@ == written.summary@
            &&& t.content@ == written.content@
            &&& t.updated_at == written.updated_at
        },
        exists|i: int|
            {
                &&& 0 <= i < entries@.len()
                &&& (#[trigger] entries@[i]).topic@ == written.topic@
                &&& entries@[i].summary@ == written.summary@
                &&& entries@[i].updated_at == written.updated_at
            },
{
    let rows = after.rows();
    written_agent_topic_is_read(
        old(before).rows(),
        written@,
        written.user_id,
        written.agent_id,
        name@,
    );
    read_agent_topic_is_stored(
        rows,
        written.user_id,
        written.agent_id,
        name@,
    );
    let p = choose|p: int| 0 <= p < rows.len() && rows[p] == written@;
    agent_topic_has_its_entry(rows, p);
    let index = agent_index(
        rows,
        written.user_id,
        written.agent_id,
    );
    let i = choose|i: int|
        {
            &&& 0 <= i < index.len()
            &&& (#[trigger] index[i]).topic == rows[p].topic
            &&& index[i].summary == rows[p].summary
            &&& index[i].updated_at == rows[p].updated_at
        };
    assert(views(entries@).len() == entries@.len());
    assert(views(entries@)[i] == entries@[i]@);
    assert(entries@[i].topic@ == written.topic@);
}

/// A topic of a user that was written is read back with all of its fields until it expires, and
/// from then on not at all.
pub proof fn written_topic_is_read_until_expiry(
    before: &mut UserMemoryStore,
    after: &UserMemoryStore,
    written: &MemoryTopic,
    name: &str,
    now: Timestamp,
    topic: Option<MemoryTopic>,
)
    requires
        distinct_by(old(before).rows(), topic_key()),
        call_ensures(UserMemoryStore::upsert_topic, (before, written), Ok(())),
        after.rows() == final(before).rows(),
        name@ == written.topic@,
        call_ensures(UserMemoryStore::get_topic_at, (after, written.user_id, name, now), topic),
    ensures
        match written.expires_at {
            Some(at) if at.seconds <= now.seconds => topic is None,
            _ => topic matches Some(t) && {
                &&& t.user_id == written.user_id
                &&& t.topic@ == written.topic@
                &&& t.summary@ == written.summary@
                &&& t.content@ == written.content@
                &&& t.updated_at == written.updated_at
                &&& t.expires_at == written.expires_at
            },
        },
{
    written_topic_is_read(old(before).rows(), written@, written.user_id, name@, now);
}

/// Each entry of the index of a user has the summary and the date of the topic that is read under
/// its name.
pub proof fn index_tells_topics(
    store: &UserMemoryStore,
    user: UserId,
    now: Timestamp,
    entries: Vec<TopicIndexEntry>,
    i: int,
    name: &str,
    topic: Option<MemoryTopic>,
)
    requires
        distinct_by(store.rows(), topic_key()),
        call_ensures(UserMemoryStore::get_index_at, (store, user, now), entries),
        0 <= i < entries@.len(),
        entries@[i].topic@ == name@,
        call_ensures(UserMemoryStore::get_topic_at, (store, user, name, now), topic),
    ensures
        topic matches Some(t) && entries@[i].summary@ == t.summary@ && entries@[i].updated_at
            == t.updated_at,
{
    assert(views(entries@).len() == entries@.len());
    assert(views(entries@)[i] == entries@[i]@);
    index_names_what_is_read(store.rows(), user, name@, now);
}

/// Deleting a topic of a user leaves nothing under its name, and every other topic as it was.
pub proof fn deleted_topic_is_not_read(
    before: &mut UserMemoryStore,
    after: &UserMemoryStore,
    earlier: &UserMemoryStore,
    user: UserId,
    name: &str,
    other_user: UserId,
    other: &str,
    now: Timestamp,
    was: Option<MemoryTopic>,
    now_got: Option<MemoryTopic>,
)
    requires
        distinct_by(old(before).rows(), topic_key()),
        earlier.rows() == old(before).rows(),
        call_ensures(UserMemoryStore::delete_topic, (before, user, name), Ok(())),
        after.rows() == final(before).rows(),
        call_ensures(UserMemoryStore::get_topic_at, (earlier, other_user, other, now), was),
        call_ensures(UserMemoryStore::get_topic_at, (after, other_user, other, now), now_got),
    ensures
        other_user == user && other@ == name@ ==> now_got is None,
        other_user != user || other@ != name@ ==> match now_got {
            Some(t) => was matches Some(w) && t@ == w@,
            None => was is None,
        },
{
    deleted_topic_is_gone(
        old(before).rows(),
        user,
        name@,
        other_user,
        other@,
        now,
    );
}

/// A new session has the agent and the owner that were given and is empty, and is found by its id;
/// no other session changes.
pub proof fn new_session_is_found(
    before: &mut SessionStore,
    after: &SessionStore,
    id: SessionId,
    agent: AgentId,
    user: UserId,
    made: Session,
    got: Option<Session>,
    owner: Option<(UserId, AgentId)>,
)
    requires
        distinct_by(old(before).rows(), session_key()),
        call_ensures(SessionStore::create_session_as, (before, id, agent, user), made),
        after.rows() == final(before).rows(),
        call_ensures(SessionStore::get_session, (after, id), Ok(got)),
        call_ensures(SessionStore::owner_of, (after, id), owner),
    ensures
        made.id == id,
        made.agent_id == agent,
        made.user_id == user,
        made.messages@.len() == 0,
        made.label is None,
        made.parent_session_id is None,
        got matches Some(s) && s@ == made@,
        owner == Some((user, agent)),
{
    created_session_is_found(old(before).rows(), id, agent, user, id);
    assert(made@.messages.len() == 0);
    assert(made@.label is None);
}

/// A session that was saved is read back with all of its fields.
pub proof fn saved_session_is_read(
    before: &mut SessionStore,
    after: &SessionStore,
    saved: &Session,
    got: Option<Session>,
)
    requires
        distinct_by(old(before).rows(), session_key()),
        call_ensures(SessionStore::save_session, (before, saved), Ok(())),
        after.rows() == final(before).rows(),
        call_ensures(SessionStore::get_session, (after, saved.id), Ok(got)),
    ensures
        got matches Some(s) && {
            &&& s.id == saved.id
            &&& s.agent_id == saved.agent_id
            &&& s.user_id == saved.user_id
            &&& views(s.messages@) == views(saved.messages@)
            &&& s.context_window_tokens == saved.context_window_tokens
            &&& s@.label == saved@.label
            &&& s.parent_session_id == saved.parent_session_id
        },
{
    stored_is_found(
        old(before).rows(),
        session_key(),
        saved@,
        saved.id,
    );
}

/// A label that was set is the label of the session, and nothing else of the session changes; and
/// the session is then found by it, unless an earlier one of the agent has the same.
pub proof fn set_label_is_kept(
    before: &mut SessionStore,
    after: &SessionStore,
    earlier: &SessionStore,
    id: SessionId,
    label: &str,
    was: Option<Session>,
    now_got: Option<Session>,
)
    requires
        distinct_by(old(before).rows(), session_key()),
        earlier.rows() == old(before).rows(),
        call_ensures(SessionStore::set_session_label, (before, id, Some(label)), Ok(())),
        after.rows() == final(before).rows(),
        call_ensures(SessionStore::get_session, (earlier, id), Ok(was)),
        call_ensures(SessionStore::get_session, (after, id), Ok(now_got)),
    ensures
        was is None <==> now_got is None,
        was matches Some(w) ==> now_got matches Some(s) && {
            &&& s@.label == Some(label@)
            &&& s.agent_id == w.agent_id
            &&& s.user_id == w.user_id
            &&& s@.messages == w@.messages
            &&& s.context_window_tokens == w.context_window_tokens
            &&& s.parent_session_id == w.parent_session_id
        },
{
    let rows = old(before).rows();
    found_has_key(rows, session_key(), id);
    if let Some(session) = session_with(rows, id) {
        let now = SessionView { label: Some(label@), ..session };
        stored_is_found(rows, session_key(), now, id);
        assert(now_got->0@ == now);
        assert(was->0@ == session);
    }
}

/// An extraction that was appended for a session is loaded for it, with all of its lists.
pub proof fn appended_extraction_is_loaded(
    before: &mut SessionExtractionStore,
    after: &SessionExtractionStore,
    sessions: &SessionStore,
    id: String,
    session: SessionId,
    extraction: &SessionExtraction,
    date: String,
    loaded: Vec<SessionExtraction>,
)
    requires
        call_ensures(
            SessionExtractionStore::append,
            (before, sessions, id, session, extraction, date),
            Ok(()),
        ),
        after.rows() == final(before).rows(),
        call_ensures(SessionExtractionStore::load_all, (after, session), loaded),
    ensures
        exists|i: int|
            {
                &&& 0 <= i < loaded@.len()
                &&& (#[trigger] loaded@[i])@.facts == extraction@.facts
                &&& loaded@[i]@.preferences == extraction@.preferences
                &&& loaded@[i]@.decisions == extraction@.decisions
                &&& loaded@[i]@.tasks == extraction@.tasks
                &&& loaded@[i]@.open_items == extraction@.open_items
            },
{
    let rows = after.rows();
    let row = attributed(sessions.rows(), id@, session, extraction@, date@);
    assert(rows[rows.len() - 1] == row);
    assert(rows.contains(row));
    let pick = of_session(session);
    selection_holds_picked(rows, pick, storing_date(), false, row);
    let all = selection(rows, pick, storing_date(), false);
    let i = choose|i: int| 0 <= i < all.len() && all[i] == row;
    assert(views(loaded@).len() == loaded@.len() && views(loaded@).len() == all.len());
    assert(views(loaded@)[i] == loaded@[i]@);
    assert(loaded@[i]@ == extraction@);
}

/// A device that was saved is told by its fields, each as it was handed over.
pub proof fn saved_device_is_told(
    before: &mut DeviceStore,
    after: &DeviceStore,
    device_id: &str,
    display_name: &str,
    platform: &str,
    paired_at: &str,
    last_seen: &str,
    push_token: &str,
    told: Vec<serde_json::Value>,
)
    requires
        call_ensures(
            DeviceStore::save_paired_device,
            (
                before,
                device_id,
                display_name,
                platform,
                paired_at,
                last_seen,
                Some(push_token),
            ),
            Ok(()),
        ),
        after.rows() == final(before).rows(),
        call_ensures(DeviceStore::load_paired_devices, (after,), Ok(told)),
    ensures
        exists|i: int|
            {
                &&& 0 <= i < told@.len()
                &&& member(json_model(#[trigger] told@[i]), "device_id"@) == Some(
                    JsonTree::Text(device_id@),
                )
                &&& member(json_model(told@[i]), "display_name"@) == Some(
                    JsonTree::Text(display_name@),
                )
                &&& member(json_model(told@[i]), "platform"@) == Some(JsonTree::Text(platform@))
                &&& member(json_model(told@[i]), "paired_at"@) == Some(JsonTree::Text(paired_at@))
                &&& member(json_model(told@[i]), "last_seen"@) == Some(JsonTree::Text(last_seen@))
                &&& member(json_model(told@[i]), "push_token"@) == Some(
                    JsonTree::Text(push_token@),
                )
            },
{
    let device = DeviceView {
        device_id: device_id@,
        display_name: display_name@,
        platform: platform@,
        paired_at: paired_at@,
        last_seen: last_seen@,
        push_token: Some(push_token@),
    };
    one_device_is_saved_or_removed(old(before).rows(), device, device);
    let rows = after.rows();
    let i = choose|i: int| 0 <= i < rows.len() && rows[i] == device;
    assert(json_models(told@).len() == told@.len() && json_models(told@).len() == rows.len());
    assert(json_models(told@)[i] == device_tree(rows[i]));
    assert(json_model(told@[i]) == device_tree(device));
    device_is_told_by_fields(device);
}

/// A value that an agent has set is what the agent gets under its key; no other agent gets it, and
/// no other key does.
pub proof fn set_value_is_got(
    before: &mut KvStore,
    after: &KvStore,
    earlier: &KvStore,
    agent: AgentId,
    key: &str,
    value: serde_json::Value,
    other_agent: AgentId,
    other: &str,
    was: Option<serde_json::Value>,
    now_got: Option<serde_json::Value>,
)
    requires
        distinct_by(old(before).rows(), kv_key()),
        earlier.rows() == old(before).rows(),
        call_ensures(KvStore::set, (before, agent, key, value), Ok(())),
        after.rows() == final(before).rows(),
        call_ensures(KvStore::get, (earlier, other_agent, other), Ok(was)),
        call_ensures(KvStore::get, (after, other_agent, other), Ok(now_got)),
    ensures
        other_agent == agent && other@ == key@ ==> (now_got matches Some(got) && json_model(got)
            == json_model(value)),
        other_agent != agent || other@ != key@ ==> match now_got {
            Some(got) => was matches Some(had) && json_model(got) == json_model(had),
            None => was is None,
        },
{
    set_value_is_read(
        old(before).rows(),
        KvView { agent_id: agent, key: key@, value: json_model(value) },
        other_agent,
        other@,
    );
}

/// An embedding that was stored for a topic comes back with the name of the topic, number by
/// number, as long as the topic has not expired.
pub proof fn stored_embedding_comes_back(
    before: &mut UserMemoryStore,
    after: &UserMemoryStore,
    p: int,
    name: &str,
    embedding: &[u32],
    now: Timestamp,
    names: Vec<String>,
    vectors: Vec<Vec<u32>>,
)
    requires
        distinct_by(old(before).rows(), topic_key()),
        0 <= p < old(before).rows().len(),
        old(before).rows()[p].topic.topic == name@,
        match old(before).rows()[p].topic.expires_at {
            Some(at) => at.seconds > now.seconds,
            None => true,
        },
        call_ensures(
            UserMemoryStore::store_embedding,
            (before, old(before).rows()[p].topic.user_id, name, embedding),
            Ok(()),
        ),
        after.rows() == final(before).rows(),
        call_ensures(
            UserMemoryStore::embeddings_at,
            (after, old(before).rows()[p].topic.user_id, now),
            (names, vectors),
        ),
    ensures
        names@.len() == vectors@.len(),
        exists|k: int|
            {
                &&& 0 <= k < names@.len()
                &&& (#[trigger] names@[k])@ == name@
                &&& vectors@[k]@ == embedding@
            },
{
    let rows = old(before).rows();
    let user = rows[p].topic.user_id;
    row_is_found(rows, topic_key(), p);
    let row = TopicRowView { embedding: Some(packed(embedding@)), ..rows[p] };
    let after_rows = after.rows();
    stored_is_found(rows, topic_key(), row, (user, name@));
    assert(after_rows == stored(rows, topic_key(), row));
    assert(after_rows == rows.update(p, row));
    assert(after_rows[p] == row);
    assert(after_rows.contains(row));
    embedded_topics_are_searched(after_rows, user, now, row);
    let left = after_rows.filter(embedded(user, now));
    let k = choose|k: int| 0 <= k < left.len() && left[k] == row;
    assert(texts(names@).len() == names@.len() && texts(names@).len() == left.len());
    assert(texts(names@)[k] == names@[k]@);
    unpack_undoes_pack(embedding@);
}

/// The contents of the topics of a user pair each name with the content of the topic that is read
/// under it.
pub proof fn contents_tell_topics(
    store: &UserMemoryStore,
    user: UserId,
    now: Timestamp,
    pairs: Vec<(String, String)>,
    i: int,
    name: &str,
    topic: Option<MemoryTopic>,
)
    requires
        distinct_by(store.rows(), topic_key()),
        call_ensures(UserMemoryStore::get_contents_at, (store, user, now), pairs),
        0 <= i < pairs@.len(),
        pairs@[i].0@ == name@,
        call_ensures(UserMemoryStore::get_topic_at, (store, user, name, now), topic),
    ensures
        topic matches Some(t) && pairs@[i].1@ == t.content@,
{
    assert(text_pairs(pairs@).len() == pairs@.len());
    assert(text_pairs(pairs@)[i] == (pairs@[i].0@, pairs@[i].1@));
    contents_follow_index(store.rows(), user, now);
}

/// The list of an agent pairs each key with the value that the agent gets under it.
pub proof fn listed_value_is_got(
    store: &KvStore,
    agent: AgentId,
    pairs: Vec<(String, serde_json::Value)>,
    i: int,
    key: &str,
    got: Option<serde_json::Value>,
)
    requires
        distinct_by(store.rows(), kv_key()),
        call_ensures(KvStore::list, (store, agent), Ok(pairs)),
        0 <= i < pairs@.len(),
        pairs@[i].0@ == key@,
        call_ensures(KvStore::get, (store, agent, key), Ok(got)),
    ensures
        got matches Some(value) && json_model(value) == json_model(pairs@[i].1),
{
    assert(pair_views(pairs@).len() == pairs@.len());
    assert(pair_views(pairs@)[i] == (pairs@[i].0@, json_model(pairs@[i].1)));
    list_has_what_is_read(store.rows(), agent, key@);
}

/// A value that was deleted is not got any more, and every other value is as before.
pub proof fn deleted_value_is_not_got(
    before: &mut KvStore,
    after: &KvStore,
    earlier: &KvStore,
    agent: AgentId,
    key: &str,
    other_agent: AgentId,
    other: &str,
    was: Option<serde_json::Value>,
    now_got: Option<serde_json::Value>,
)
    requires
        distinct_by(old(before).rows(), kv_key()),
        earlier.rows() == old(before).rows(),
        call_ensures(KvStore::delete, (before, agent, key), Ok(())),
        after.rows() == final(before).rows(),
        call_ensures(KvStore::get, (earlier, other_agent, other), Ok(was)),
        call_ensures(KvStore::get, (after, other_agent, other), Ok(now_got)),
    ensures
        other_agent == agent && other@ == key@ ==> now_got is None,
        other_agent != agent || other@ != key@ ==> match now_got {
            Some(got) => was matches Some(had) && json_model(got) == json_model(had),
            None => was is None,
        },
{
    deleted_value_is_gone(old(before).rows(), agent, key@, other_agent, other@);
}

/// Deleting the memory of a user says how many topics went; it leaves no topic of the user to
/// read, and the topics of other users as they were.
pub proof fn deleted_memory_is_not_read(
    deleting: &mut UserMemoryStore,
    deleted: &UserMemoryStore,
    earlier: &UserMemoryStore,
    user: UserId,
    other_user: UserId,
    name: &str,
    now: Timestamp,
    count: usize,
    was: Option<MemoryTopic>,
    now_got: Option<MemoryTopic>,
)
    requires
        distinct_by(old(deleting).rows(), topic_key()),
        earlier.rows() == old(deleting).rows(),
        call_ensures(UserMemoryStore::delete_user_memory, (deleting, user), Ok(count)),
        deleted.rows() == final(deleting).rows(),
        call_ensures(UserMemoryStore::get_topic_at, (earlier, other_user, name, now), was),
        call_ensures(UserMemoryStore::get_topic_at, (deleted, other_user, name, now), now_got),
    ensures
        count == old(deleting).rows().len() - final(deleting).rows().len(),
        other_user == user ==> now_got is None,
        other_user != user ==> match now_got {
            Some(t) => was matches Some(w) && t@ == w@,
            None => was is None,
        },
{
    deleted_user_is_forgotten(old(deleting).rows(), user, other_user, name@, now);
}

/// Pruning says how many topics went, and changes nothing that is read then or later.
pub proof fn pruning_changes_no_answer(
    pruning: &mut UserMemoryStore,
    pruned: &UserMemoryStore,
    earlier: &UserMemoryStore,
    user: UserId,
    now: Timestamp,
    other_user: UserId,
    name: &str,
    later: Timestamp,
    count: usize,
    was: Option<MemoryTopic>,
    now_got: Option<MemoryTopic>,
    row: TopicRowView,
)
    requires
        distinct_by(old(pruning).rows(), topic_key()),
        earlier.rows() == old(pruning).rows(),
        call_ensures(UserMemoryStore::prune_expired_at, (pruning, user, now), count),
        pruned.rows() == final(pruning).rows(),
        now.seconds <= later.seconds,
        call_ensures(UserMemoryStore::get_topic_at, (earlier, other_user, name, later), was),
        call_ensures(UserMemoryStore::get_topic_at, (pruned, other_user, name, later), now_got),
    ensures
        count == old(pruning).rows().len() - final(pruning).rows().len(),
        match now_got {
            Some(t) => was matches Some(w) && t@ == w@,
            None => was is None,
        },
        final(pruning).rows().contains(row) <==> old(pruning).rows().contains(row) && !(
        row.topic.user_id == user && (row.topic.expires_at matches Some(at) && at.seconds
            <= now.seconds)),
{
    pruning_is_not_seen(old(pruning).rows(), user, now, other_user, name@, later);
    pruning_deletes_what_expired(old(pruning).rows(), user, now, row);
}

/// Deleting the memory of a user and an agent leaves no topic of the two, and every topic of
/// another pair as it was.
pub proof fn deleted_pair_is_not_read(
    deleting: &mut UserAgentMemoryStore,
    deleted: &UserAgentMemoryStore,
    earlier: &UserAgentMemoryStore,
    user: UserId,
    agent: AgentId,
    other_user: UserId,
    other_agent: AgentId,
    name: &str,
    count: usize,
    was: Option<UserAgentMemoryTopic>,
    now_got: Option<UserAgentMemoryTopic>,
)
    requires
        distinct_by(old(deleting).rows(), agent_topic_key()),
        earlier.rows() == old(deleting).rows(),
        call_ensures(
            UserAgentMemoryStore::delete_user_agent_memory,
            (deleting, user, agent),
            Ok(count),
        ),
        deleted.rows() == final(deleting).rows(),
        call_ensures(
            UserAgentMemoryStore::get_topic,
            (earlier, other_user, other_agent, name),
            Ok(was),
        ),
        call_ensures(
            UserAgentMemoryStore::get_topic,
            (deleted, other_user, other_agent, name),
            Ok(now_got),
        ),
    ensures
        count == old(deleting).rows().len() - final(deleting).rows().len(),
        other_user == user && other_agent == agent ==> now_got is None,
        other_user != user || other_agent != agent ==> match now_got {
            Some(t) => was matches Some(w) && t@ == w@,
            None => was is None,
        },
{
    deleted_pair_is_forgotten(
        old(deleting).rows(),
        user,
        agent,
        other_user,
        other_agent,
        name@,
    );
}

/// Deleting the memory of a user across all agents leaves no topic of the user with any of them,
/// and the topics of other users as they were.
pub proof fn deleted_across_agents_is_not_read(
    deleting: &mut UserAgentMemoryStore,
    deleted: &UserAgentMemoryStore,
    earlier: &UserAgentMemoryStore,
    user: UserId,
    other_user: UserId,
    agent: AgentId,
    name: &str,
    count: usize,
    was: Option<UserAgentMemoryTopic>,
    now_got: Option<UserAgentMemoryTopic>,
)
    requires
        distinct_by(old(deleting).rows(), agent_topic_key()),
        earlier.rows() == old(deleting).rows(),
        call_ensures(UserAgentMemoryStore::delete_all_user_memory, (deleting, user), Ok(count)),
        deleted.rows() == final(deleting).rows(),
        call_ensures(UserAgentMemoryStore::get_topic, (earlier, other_user, agent, name), Ok(was)),
        call_ensures(
            UserAgentMemoryStore::get_topic,
            (deleted, other_user, agent, name),
            Ok(now_got),
        ),
    ensures
        count == old(deleting).rows().len() - final(deleting).rows().len(),
        other_user == user ==> now_got is None,
        other_user != user ==> match now_got {
            Some(t) => was matches Some(w) && t@ == w@,
            None => was is None,
        },
{
    deleted_across_agents_is_forgotten(old(deleting).rows(), user, other_user, agent, name@);
}

/// A session that was deleted is not got any more, and every other session is as before.
pub proof fn deleted_session_is_not_got(
    deleting: &mut SessionStore,
    deleted: &SessionStore,
    earlier: &SessionStore,
    id: SessionId,
    other: SessionId,
    was: Option<Session>,
    now_got: Option<Session>,
)
    requires
        distinct_by(old(deleting).rows(), session_key()),
        earlier.rows() == old(deleting).rows(),
        call_ensures(SessionStore::delete_session, (deleting, id), Ok(())),
        deleted.rows() == final(deleting).rows(),
        call_ensures(SessionStore::get_session, (earlier, other), Ok(was)),
        call_ensures(SessionStore::get_session, (deleted, other), Ok(now_got)),
    ensures
        other == id ==> now_got is None,
        other != id ==> match now_got {
            Some(t) => was matches Some(w) && t@ == w@,
            None => was is None,
        },
{
    deleted_session_is_gone(old(deleting).rows(), id, other);
}

/// Deleting the sessions of an agent takes exactly those; deleting the tree of a session says how
/// many went, and takes with a session each one whose parent it is.
pub proof fn sessions_go_with_agent_or_parent(
    of_agent_store: &mut SessionStore,
    of_tree_store: &mut SessionStore,
    agent: AgentId,
    root: SessionId,
    count: usize,
    session: SessionView,
    parent: SessionView,
)
    requires
        call_ensures(SessionStore::delete_agent_sessions, (of_agent_store, agent), Ok(())),
        distinct_by(old(of_tree_store).rows(), session_key()),
        call_ensures(SessionStore::delete_session_tree, (of_tree_store, root), Ok(count)),
        old(of_tree_store).rows().contains(session),
        old(of_tree_store).rows().contains(parent),
        session.parent_session_id == Some(parent.id),
    ensures
        final(of_agent_store).rows().contains(session) <==> old(of_agent_store).rows().contains(
            session,
        ) && session.agent_id != agent,
        count == old(of_tree_store).rows().len() - final(of_tree_store).rows().len(),
        !final(of_tree_store).rows().contains(parent) ==> !final(of_tree_store).rows().contains(
            session,
        ),
        parent.id == root ==> !final(of_tree_store).rows().contains(parent),
        final(of_tree_store).rows().contains(parent) ==> session.id == root
            || final(of_tree_store).rows().contains(session),
{
    deletion_takes_sessions_of_agent(old(of_agent_store).rows(), agent, session);
    deleted_parent_takes_children(old(of_tree_store).rows(), root, parent, session);
}

/// The sessions of the nil user are given to another, and counted; no other session changes.
pub proof fn unowned_sessions_get_owner(
    store: &mut SessionStore,
    target: UserId,
    count: usize,
    i: int,
)
    requires
        call_ensures(SessionStore::rewrite_nil_user_sessions, (store, target), Ok(count)),
        0 <= i < old(store).rows().len(),
    ensures
        count == old(store).rows().filter(|s: SessionView| s.user_id == UserId(0)).len(),
        final(store).rows().len() == old(store).rows().len(),
        old(store).rows()[i].user_id == UserId(0) ==> final(store).rows()[i] == (SessionView {
            user_id: target,
            ..old(store).rows()[i]
        }),
        old(store).rows()[i].user_id != UserId(0) ==> final(store).rows()[i]
            == old(store).rows()[i],
{
    unowned_sessions_are_counted(old(store).rows());
    only_unowned_sessions_are_given_away(old(store).rows(), target, i);
}

/// A session that is found by a label is one of the agent with that label; and where none is
/// found, there is none.
pub proof fn labelled_session_is_found(
    store: &SessionStore,
    agent: AgentId,
    label: &str,
    got: Option<Session>,
)
    requires
        call_ensures(SessionStore::find_session_by_label, (store, agent, label), Ok(got)),
    ensures
        match got {
            Some(session) => session.agent_id == agent && session@.label == Some(label@)
                && store.rows().contains(session@),
            None => forall|k: int|
                0 <= k < store.rows().len() ==> (#[trigger] store.rows()[k]).agent_id != agent
                    || store.rows()[k].label != Some(label@),
        },
{
    label_finds_first_session(store.rows(), agent, label@);
}

/// Deleting the extractions of a session takes exactly those; deleting those of a user takes each
/// that is attributed to the user or is of a session of theirs, and says how many.
pub proof fn extractions_go_with_session_or_user(
    of_session_store: &mut SessionExtractionStore,
    of_user_store: &mut SessionExtractionStore,
    sessions: &SessionStore,
    session: SessionId,
    user: UserId,
    count: usize,
    row: ExtractionRowView,
)
    requires
        distinct_by(sessions.rows(), session_key()),
        call_ensures(SessionExtractionStore::delete_for_session, (of_session_store, session), ()),
        call_ensures(SessionExtractionStore::delete_user, (of_user_store, sessions, user), count),
    ensures
        final(of_session_store).rows().contains(row) <==> old(of_session_store).rows().contains(row)
            && row.session_id != session,
        final(of_user_store).rows().contains(row) <==> old(of_user_store).rows().contains(row) && !(
        row.user_id == user || exists|i: int|
            0 <= i < sessions.rows().len() && (#[trigger] sessions.rows()[i]).id == row.session_id
                && sessions.rows()[i].user_id == user),
        count == old(of_user_store).rows().len() - final(of_user_store).rows().len(),
{
    deleted_extractions_are_gone(old(of_user_store).rows(), sessions.rows(), user, row);
    extraction_belongs_by_row_or_session(sessions.rows(), user, row);
    let rows = old(of_session_store).rows();
    let keep = others(of_session(session));
    lemma_rows_kept(rows, keep, row);
}

/// What a filter keeps.
proof fn lemma_rows_kept(
    rows: Seq<ExtractionRowView>,
    keep: spec_fn(ExtractionRowView) -> bool,
    row: ExtractionRowView,
)
    ensures
        rows.filter(keep).contains(row) <==> rows.contains(row) && keep(row),
{
    broadcast use vstd::seq_lib::group_filter_ensures;

    let kept = rows.filter(keep);
    if kept.contains(row) {
        rows.lemma_filter_contains_rev(keep, row);
        let i = choose|i: int| 0 <= i < kept.len() && kept[i] == row;
        assert(keep(kept[i]));
    }
    if rows.contains(row) && keep(row) {
        let i = choose|i: int| 0 <= i < rows.len() && rows[i] == row;
        assert(kept.contains(rows[i]));
    }
}

/// A device that was removed is not among the devices any more, and every other one is.
pub proof fn removed_device_is_not_kept(store: &mut DeviceStore, id: &str, device: DeviceView)
    requires
        call_ensures(DeviceStore::remove_paired_device, (store, id), Ok(())),
    ensures
        final(store).rows().contains(device) <==> old(store).rows().contains(device)
            && device.device_id != id@,
{
    one_device_is_saved_or_removed(
        old(store).rows(),
        DeviceView { device_id: id@, ..device },
        device,
    );
}

/// The gateway is used if the settings name it and say where it is and where its token is, and a
/// client for it could be made.
pub proof fn gateway_is_used_if_possible(
    config: &StorageConfig,
    wanted: SemanticBackend,
    created: bool,
    used: SemanticBackend,
)
    requires
        call_ensures(StorageConfig::semantic_backend, (config,), wanted),
        call_ensures(SemanticBackend::with_client, (wanted, created), used),
    ensures
        match used {
            SemanticBackend::Http { url, token_env } => {
                &&& created
                &&& config.backend@ == "http"@
                &&& optional_text(config.http_url) == Some(url@)
                &&& optional_text(config.http_token_env) == Some(token_env@)
            },
            SemanticBackend::Sqlite => !created || config.backend@ != "http"@
                || config.http_url is None || config.http_token_env is None,
        },
{
    gateway_needs_all_settings(
        config.backend@,
        optional_text(config.http_url),
        optional_text(config.http_token_env),
    );
}

} // verus!
