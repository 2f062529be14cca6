//! Laws of extractions, devices, key-value entries and backends, stated on their fields.

use crate::ids::{hyphenated, AgentId, SessionId, UserId};
use crate::json::{
    entries_map, entry_is_member, json_model, maybe_text_tree, member, JsonTree,
};
use crate::memory::backend::{chosen_backend, BackendView};
use crate::memory::devices::{
    device_key, device_tree, saved, without_device, DeviceView, PairedDevice,
};
use crate::memory::extractions::{
    attributed, attributed_to, audit_trail, belonging_to, of_session, storing_date, ExtractionRow,
    ExtractionRowView, ExtractionView, SessionExtraction,
};
use crate::memory::kv::{entry_key, kept_by, kv_key, value_of, KvEntry, KvView};
use crate::memory::sessions::{session_key, session_with, SessionView};
use crate::memory::table::{
    by_key, comes_first, distinct_by, first, first_finds, found_has_key, others, row_is_found,
    row_with, selection, selection_holds_picked, selection_is_sorted,
};
use crate::text::{optional_text, text_less, text_order_is_total, texts};
use vstd::prelude::*;

verus! {

/// What is stated of an extraction and of its row speaks of their fields.
pub proof fn extractions_show_their_fields(extraction: SessionExtraction, row: ExtractionRow)
    ensures
        extraction@.facts == texts(extraction.facts@),
        extraction@.preferences == texts(extraction.preferences@),
        extraction@.decisions == texts(extraction.decisions@),
        extraction@.tasks == texts(extraction.tasks@),
        extraction@.open_items == texts(extraction.open_items@),
        row@.id == row.id@,
        row@.session_id == row.session_id,
        row@.user_id == row.user_id,
        row@.agent_id == row.agent_id,
        row@.extraction == row.extraction@,
        row@.created_at == row.created_at@,
{
}

/// An extraction is stored whole, under its id and date, for its session, and attributed to the
/// owner and the agent of the session; to nobody if there is no such session.
pub proof fn extraction_is_attributed_to_owner(
    sessions: Seq<SessionView>,
    i: int,
    id: Seq<char>,
    session: SessionId,
    extraction: ExtractionView,
    date: Seq<char>,
)
    requires
        distinct_by(sessions, session_key()),
        0 <= i < sessions.len(),
    ensures
        ({
            let row = attributed(sessions, id, sessions[i].id, extraction, date);
            &&& row.id == id
            &&& row.session_id == sessions[i].id
            &&& row.user_id == sessions[i].user_id
            &&& row.agent_id == sessions[i].agent_id
            &&& row.extraction == extraction
            &&& row.created_at == date
        }),
        (forall|k: int| 0 <= k < sessions.len() ==> (#[trigger] sessions[k]).id != session) ==> {
            let row = attributed(sessions, id, session, extraction, date);
            &&& row.id == id
            &&& row.session_id == session
            &&& row.user_id == UserId(0)
            &&& row.agent_id == AgentId(0)
            &&& row.extraction == extraction
            &&& row.created_at == date
        },
{
    row_is_found(sessions, session_key(), i);
    found_has_key(sessions, session_key(), session);
}

/// The extractions of a session are loaded all, and no others, the oldest first.
pub proof fn session_extractions_are_loaded(
    rows: Seq<ExtractionRowView>,
    session: SessionId,
    row: ExtractionRowView,
)
    ensures
        ({
            let loaded = selection(rows, of_session(session), storing_date(), false);
            &&& loaded.contains(row) <==> rows.contains(row) && row.session_id == session
            &&& forall|i: int, j: int|
                0 <= i < j < loaded.len() ==> !text_less(
                    (#[trigger] loaded[j]).created_at,
                    (#[trigger] loaded[i]).created_at,
                )
        }),
{
    let pick = of_session(session);
    let loaded = selection(rows, pick, storing_date(), false);
    selection_holds_picked(rows, pick, storing_date(), false, row);
    selection_is_sorted(rows, pick, storing_date(), false, storing_date());
    assert forall|i: int, j: int| 0 <= i < j < loaded.len() implies !text_less(
        (#[trigger] loaded[j]).created_at,
        (#[trigger] loaded[i]).created_at,
    ) by {
        assert(!comes_first(storing_date()(loaded[j]), storing_date()(loaded[i]), false));
    }
}

/// An extraction belongs to a user if it is attributed to them, or if its session is theirs.
pub proof fn extraction_belongs_by_row_or_session(
    sessions: Seq<SessionView>,
    user: UserId,
    row: ExtractionRowView,
)
    requires
        distinct_by(sessions, session_key()),
    ensures
        belonging_to(sessions, user)(row) <==> row.user_id == user || exists|i: int|
            0 <= i < sessions.len() && (#[trigger] sessions[i]).id == row.session_id
                && sessions[i].user_id == user,
{
    found_has_key(sessions, session_key(), row.session_id);
    first_finds(
        sessions,
        by_key(session_key(), row.session_id),
    );
    if let Some(session) = session_with(sessions, row.session_id) {
        let at = first(
            sessions,
            by_key(session_key(), row.session_id),
        );
        assert(sessions[at] == session && session.id == row.session_id);
    }
    if exists|i: int|
        0 <= i < sessions.len() && (#[trigger] sessions[i]).id == row.session_id
            && sessions[i].user_id == user {
        let i = choose|i: int|
            0 <= i < sessions.len() && (#[trigger] sessions[i]).id == row.session_id
                && sessions[i].user_id == user;
        row_is_found(sessions, session_key(), i);
    }
}

/// The audit trail of a user tells of each extraction its id, its session, its agent and its
/// date, and whether the session is gone; it has at most as many rows as are asked for, and each
/// is of an extraction that is attributed to the user, the newest first.
pub proof fn audit_tells_of_extractions(
    rows: Seq<ExtractionRowView>,
    sessions: Seq<SessionView>,
    user: UserId,
    limit: nat,
    i: int,
)
    requires
        0 <= i < audit_trail(rows, sessions, user, limit).len(),
    ensures
        audit_trail(rows, sessions, user, limit).len() <= limit,
        audit_trail(rows, sessions, user, limit).len() == limit || audit_trail(
            rows,
            sessions,
            user,
            limit,
        ).len() == rows.filter(attributed_to(user)).len(),
        exists|p: int|
            {
                let told = audit_trail(rows, sessions, user, limit)[i];
                &&& 0 <= p < rows.len()
                &&& (#[trigger] rows[p]).user_id == user
                &&& told.0 == rows[p].id
                &&& told.1 == hyphenated(rows[p].session_id.0)
                &&& told.2 == hyphenated(rows[p].agent_id.0)
                &&& told.3 == rows[p].created_at
                &&& told.4 == (session_with(sessions, rows[p].session_id) is None)
            },
        forall|j: int|
            0 <= j < i ==> !text_less(
                (#[trigger] audit_trail(rows, sessions, user, limit)[j]).3,
                audit_trail(rows, sessions, user, limit)[i].3,
            ),
{
    let pick = attributed_to(user);
    let all = selection(rows, pick, storing_date(), true);
    let trail = audit_trail(rows, sessions, user, limit);
    selection_holds_picked(rows, pick, storing_date(), true, all[i]);
    assert(all.contains(all[i]));
    let p = choose|p: int| 0 <= p < rows.len() && rows[p] == all[i];
    assert(rows[p].user_id == user);
    selection_is_sorted(rows, pick, storing_date(), true, storing_date());
    assert forall|j: int| 0 <= j < i implies !text_less((#[trigger] trail[j]).3, trail[i].3) by {
        assert(!comes_first(storing_date()(all[i]), storing_date()(all[j]), true));
    }
}

/// What is stated of a device speaks of its fields.
pub proof fn devices_show_their_fields(device: PairedDevice)
    ensures
        device@.device_id == device.device_id@,
        device@.display_name == device.display_name@,
        device@.platform == device.platform@,
        device@.paired_at == device.paired_at@,
        device@.last_seen == device.last_seen@,
        device@.push_token == optional_text(device.push_token),
{
}

/// A device is told field by field, each under its own name.
pub proof fn device_is_told_by_fields(device: DeviceView)
    ensures
        member(device_tree(device), "device_id"@) == Some(JsonTree::Text(device.device_id)),
        member(device_tree(device), "display_name"@) == Some(JsonTree::Text(device.display_name)),
        member(device_tree(device), "platform"@) == Some(JsonTree::Text(device.platform)),
        member(device_tree(device), "paired_at"@) == Some(JsonTree::Text(device.paired_at)),
        member(device_tree(device), "last_seen"@) == Some(JsonTree::Text(device.last_seen)),
        member(device_tree(device), "push_token"@) == Some(
            match device.push_token {
                Some(token) => JsonTree::Text(token),
                None => JsonTree::Null,
            },
        ),
{
    reveal_strlit("device_id");
    reveal_strlit("display_name");
    reveal_strlit("platform");
    reveal_strlit("paired_at");
    reveal_strlit("last_seen");
    reveal_strlit("push_token");
    assert("device_id"@.len() == 9 && "display_name"@.len() == 12 && "platform"@.len() == 8);
    assert("paired_at"@.len() == 9 && "last_seen"@.len() == 9 && "push_token"@.len() == 10);
    assert("device_id"@[0] == 'd' && "paired_at"@[0] == 'p' && "last_seen"@[0] == 'l');
    let e = seq![
        ("device_id"@, JsonTree::Text(device.device_id)),
        ("display_name"@, JsonTree::Text(device.display_name)),
        ("platform"@, JsonTree::Text(device.platform)),
        ("paired_at"@, JsonTree::Text(device.paired_at)),
        ("last_seen"@, JsonTree::Text(device.last_seen)),
        ("push_token"@, maybe_text_tree(device.push_token)),
    ];
    assert(device_tree(device) == JsonTree::Object(entries_map(e)));
    entry_is_member(e, 0);
    entry_is_member(e, 1);
    entry_is_member(e, 2);
    entry_is_member(e, 3);
    entry_is_member(e, 4);
    entry_is_member(e, 5);
}

/// Saving a device keeps every device with another id, and the saved one, and nothing else;
/// removing one takes the device with that id, and nothing else.
pub proof fn one_device_is_saved_or_removed(
    devices: Seq<DeviceView>,
    device: DeviceView,
    other: DeviceView,
)
    ensures
        saved(devices, device).contains(other) <==> other == device || (devices.contains(other)
            && other.device_id != device.device_id),
        saved(devices, device).last() == device,
        without_device(devices, device.device_id).contains(other) <==> devices.contains(other)
            && other.device_id != device.device_id,
{
    broadcast use vstd::seq_lib::group_filter_ensures;

    let keep = others(by_key(device_key(), device.device_id));
    let rest = without_device(devices, device.device_id);
    if rest.contains(other) {
        devices.lemma_filter_contains_rev(keep, other);
        let i = choose|i: int| 0 <= i < rest.len() && rest[i] == other;
        assert(keep(rest[i]));
    }
    if devices.contains(other) && keep(other) {
        let i = choose|i: int| 0 <= i < devices.len() && devices[i] == other;
        assert(rest.contains(devices[i]));
    }
    let now = saved(devices, device);
    assert(now == rest.push(device));
    if rest.contains(other) {
        let i = choose|i: int| 0 <= i < rest.len() && rest[i] == other;
        assert(now[i] == other);
    }
    assert(now[rest.len() as int] == device);
    if now.contains(other) {
        let i = choose|i: int| 0 <= i < now.len() && now[i] == other;
        if i < rest.len() {
            assert(rest[i] == other);
        }
    }
}

/// What is stated of an entry speaks of its fields.
pub proof fn entries_show_their_fields(entry: KvEntry)
    ensures
        entry@.agent_id == entry.agent_id,
        entry@.key == entry.key@,
        entry@.value == json_model(entry.value),
{
}

/// A stored value is read by its agent under its key.
pub proof fn stored_value_is_read(rows: Seq<KvView>, i: int)
    requires
        distinct_by(rows, kv_key()),
        0 <= i < rows.len(),
    ensures
        value_of(rows, rows[i].agent_id, rows[i].key) == Some(rows[i].value),
{
    row_is_found(rows, kv_key(), i);
}

/// The list of an agent has each of its keys with the value that is read under it, and nothing of
/// another agent; the keys are in order, and none occurs twice.
pub proof fn list_has_what_is_read(rows: Seq<KvView>, agent: AgentId, key: Seq<char>)
    requires
        distinct_by(rows, kv_key()),
    ensures
        ({
            let pairs = selection(rows, kept_by(agent), entry_key(), false).map_values(
                |entry: KvView| (entry.key, entry.value),
            );
            &&& forall|i: int|
                0 <= i < pairs.len() ==> value_of(rows, agent, (#[trigger] pairs[i]).0) == Some(
                    pairs[i].1,
                )
            &&& value_of(rows, agent, key) is Some ==> exists|i: int|
                0 <= i < pairs.len() && (#[trigger] pairs[i]).0 == key
            &&& forall|i: int, j: int|
                0 <= i < j < pairs.len() ==> text_less(
                    (#[trigger] pairs[i]).0,
                    (#[trigger] pairs[j]).0,
                )
        }),
{
    let pick = kept_by(agent);
    let chosen = selection(rows, pick, entry_key(), false);
    let pairs = chosen.map_values(|entry: KvView| (entry.key, entry.value));
    assert forall|i: int| 0 <= i < pairs.len() implies value_of(
        rows,
        agent,
        (#[trigger] pairs[i]).0,
    ) == Some(pairs[i].1) && chosen[i].agent_id == agent by {
        selection_holds_picked(rows, pick, entry_key(), false, chosen[i]);
        assert(chosen.contains(chosen[i]));
        let p = choose|p: int| 0 <= p < rows.len() && rows[p] == chosen[i];
        row_is_found(rows, kv_key(), p);
    }
    if value_of(rows, agent, key) is Some {
        found_has_key(rows, kv_key(), (agent, key));
        let row = row_with(rows, kv_key(), (agent, key))->0;
        selection_holds_picked(rows, pick, entry_key(), false, row);
        let i = choose|i: int| 0 <= i < chosen.len() && chosen[i] == row;
        assert(pairs[i].0 == key);
    }
    selection_is_sorted(rows, pick, entry_key(), false, kv_key());
    assert forall|i: int, j: int| 0 <= i < j < pairs.len() implies text_less(
        (#[trigger] pairs[i]).0,
        (#[trigger] pairs[j]).0,
    ) by {
        selection_holds_picked(rows, pick, entry_key(), false, chosen[i]);
        selection_holds_picked(rows, pick, entry_key(), false, chosen[j]);
        assert(chosen.contains(chosen[i]) && chosen.contains(chosen[j]));
        assert(kv_key()(chosen[i]) != kv_key()(chosen[j]));
        assert(!comes_first(entry_key()(chosen[j]), entry_key()(chosen[i]), false));
        text_order_is_total(chosen[i].key, chosen[j].key);
    }
}

/// Semantic memories go to the gateway if the settings name `http` and say where it is and where
/// its token is, to that place and with that token; and to the local database otherwise.
pub proof fn gateway_needs_all_settings(
    backend: Seq<char>,
    url: Option<Seq<char>>,
    token_env: Option<Seq<char>>,
)
    ensures
        match chosen_backend(backend, url, token_env) {
            BackendView::Http { url: at, token_env: token } => backend == "http"@ && url == Some(
                at,
            ) && token_env == Some(token),
            BackendView::Sqlite => backend != "http"@ || url is None || token_env is None,
        },
{
}

} // verus!
