//! The JSON form of tasks, messages and artifacts, and how it is read.

use crate::a2a::types::{
    artifact_views, message_views, optional_task, part_views, A2aArtifact, A2aMessage, A2aPart,
    A2aTask, A2aTaskStatus, A2aTaskStatusWrapper, ArtifactView, MessageView, PartView, StatusView,
    TaskView,
};
use crate::json::{
    json_array, json_copy, json_is_null, json_keys, json_member, json_model, json_models,
    json_str, member, referred_model, JsonTree,
};
use crate::record::{
    field, fits_record, is_record, maybe_bool, maybe_text, maybe_tree, maybe_u32, read_field,
    read_maybe_bool, read_maybe_json, read_maybe_text, read_maybe_u32, read_text, required_text,
};
use crate::text::{same_text, texts};
use vstd::prelude::*;

verus! {

/// A list whose elements `read` accepts, one and all.
pub open spec fn list_of<T>(tree: JsonTree, read: spec_fn(JsonTree) -> Option<T>) -> Option<
    Seq<T>,
> {
    match tree {
        JsonTree::Array(items) => if forall|i: int|
            0 <= i < items.len() ==> (#[trigger] read(items[i])) is Some {
            Some(items.map_values(|t: JsonTree| read(t)->0))
        } else {
            None
        },
        _ => None,
    }
}

/// A list that may be absent, which stands for the empty list.
pub open spec fn default_list_of<T>(
    tree: Option<JsonTree>,
    read: spec_fn(JsonTree) -> Option<T>,
) -> Option<Seq<T>> {
    match tree {
        None => Some(Seq::empty()),
        Some(t) => list_of(t, read),
    }
}

/// The wire name of a status.
pub open spec fn status_named(name: Seq<char>) -> Option<A2aTaskStatus> {
    if name == "submitted"@ {
        Some(A2aTaskStatus::Submitted)
    } else if name == "working"@ {
        Some(A2aTaskStatus::Working)
    } else if name == "inputRequired"@ {
        Some(A2aTaskStatus::InputRequired)
    } else if name == "completed"@ {
        Some(A2aTaskStatus::Completed)
    } else if name == "cancelled"@ {
        Some(A2aTaskStatus::Cancelled)
    } else if name == "failed"@ {
        Some(A2aTaskStatus::Failed)
    } else {
        None
    }
}

/// The key of an object that has exactly one.
pub open spec fn only_key(entries: Map<Seq<char>, JsonTree>) -> Option<Seq<char>> {
    if exists|k: Seq<char>| entries.dom() == Set::<Seq<char>>::empty().insert(k) {
        Some(choose|k: Seq<char>| entries.dom() == Set::<Seq<char>>::empty().insert(k))
    } else {
        None
    }
}

/// A bare status: its wire name, or an object that maps that name, and nothing else, to `null`.
pub open spec fn bare_status(tree: JsonTree) -> Option<A2aTaskStatus> {
    match tree {
        JsonTree::Text(name) => status_named(name),
        JsonTree::Object(entries) => match only_key(entries) {
            Some(key) => if entries[key] is Null {
                status_named(key)
            } else {
                None
            },
            None => None,
        },
        _ => None,
    }
}

/// The status in the member `state` of an object.
pub open spec fn nested_status(tree: JsonTree) -> Option<A2aTaskStatus> {
    match member(tree, "state"@) {
        Some(state) => bare_status(state),
        None => None,
    }
}

/// A status in its object form or its bare form.
pub open spec fn status_of(tree: JsonTree) -> Option<StatusView> {
    match nested_status(tree) {
        Some(state) => Some(
            StatusView::Object { state, message: maybe_tree(member(tree, "message"@)) },
        ),
        None => match bare_status(tree) {
            Some(state) => Some(StatusView::Enum(state)),
            None => None,
        },
    }
}

/// A content part. The tag `type` says which kind it is.
pub open spec fn part_of(tree: JsonTree) -> Option<PartView> {
    match required_text(field(tree, "type"@, 0)) {
        None => None,
        Some(tag) => if tag == "text"@ {
            match required_text(field(tree, "text"@, 1)) {
                Some(text) if is_record(tree, 2) => Some(PartView::Text { text }),
                _ => None,
            }
        } else if tag == "file"@ {
            match (
                required_text(field(tree, "name"@, 1)),
                required_text(field(tree, "mime_type"@, 2)),
                required_text(field(tree, "data"@, 3)),
            ) {
                (Some(name), Some(mime_type), Some(data)) if is_record(tree, 4) => Some(
                    PartView::File { name, mime_type, data },
                ),
                _ => None,
            }
        } else if tag == "data"@ {
            match (required_text(field(tree, "mime_type"@, 1)), field(tree, "data"@, 2)) {
                (Some(mime_type), Some(data)) if is_record(tree, 3) => Some(
                    PartView::Data { mime_type, data },
                ),
                _ => None,
            }
        } else {
            None
        },
    }
}

/// A list of content parts, which has to be there.
pub open spec fn parts_of(tree: Option<JsonTree>) -> Option<Seq<PartView>> {
    match tree {
        Some(t) => list_of(t, |p: JsonTree| part_of(p)),
        None => None,
    }
}

/// A message.
pub open spec fn message_of(tree: JsonTree) -> Option<MessageView> {
    match (required_text(field(tree, "role"@, 0)), parts_of(field(tree, "parts"@, 1))) {
        (Some(role), Some(parts)) if is_record(tree, 2) => Some(MessageView { role, parts }),
        _ => None,
    }
}

/// An artifact.
pub open spec fn artifact_of(tree: JsonTree) -> Option<ArtifactView> {
    match (
        maybe_text(field(tree, "name"@, 0)),
        maybe_text(field(tree, "description"@, 1)),
        maybe_u32(field(tree, "index"@, 3)),
        maybe_bool(field(tree, "lastChunk"@, 4)),
        parts_of(field(tree, "parts"@, 5)),
    ) {
        (Some(name), Some(description), Some(index), Some(last_chunk), Some(parts)) if is_record(
            tree,
            6,
        ) => Some(
            ArtifactView {
                name,
                description,
                metadata: maybe_tree(field(tree, "metadata"@, 2)),
                index,
                last_chunk,
                parts,
            },
        ),
        _ => None,
    }
}

/// The status of a task, which has to be there.
pub open spec fn required_status(tree: Option<JsonTree>) -> Option<StatusView> {
    match tree {
        Some(t) => status_of(t),
        None => None,
    }
}

/// A task.
pub open spec fn task_of(tree: JsonTree) -> Option<TaskView> {
    match (
        required_text(field(tree, "id"@, 0)),
        maybe_text(field(tree, "sessionId"@, 1)),
        required_status(field(tree, "status"@, 2)),
        default_list_of(field(tree, "messages"@, 3), |m: JsonTree| message_of(m)),
        default_list_of(field(tree, "artifacts"@, 4), |a: JsonTree| artifact_of(a)),
    ) {
        (Some(id), Some(session_id), Some(status), Some(messages), Some(artifacts)) if is_record(
            tree,
            5,
        ) => Some(TaskView { id, session_id, status, messages, artifacts }),
        _ => None,
    }
}

/// The status with the wire name `name`.
fn read_status_name(name: &str) -> (r: Option<A2aTaskStatus>)
    ensures
        r == status_named(name@),
{
    if same_text(name, "submitted") {
        Some(A2aTaskStatus::Submitted)
    } else if same_text(name, "working") {
        Some(A2aTaskStatus::Working)
    } else if same_text(name, "inputRequired") {
        Some(A2aTaskStatus::InputRequired)
    } else if same_text(name, "completed") {
        Some(A2aTaskStatus::Completed)
    } else if same_text(name, "cancelled") {
        Some(A2aTaskStatus::Cancelled)
    } else if same_text(name, "failed") {
        Some(A2aTaskStatus::Failed)
    } else {
        None
    }
}

/// An object has the key `key` and no other exactly if a list of its keys, each once, is that key.
proof fn lemma_only_key(keys: Seq<Seq<char>>, entries: Map<Seq<char>, JsonTree>)
    requires
        keys.no_duplicates(),
        keys.to_set() == entries.dom(),
    ensures
        keys.len() == 1 ==> only_key(entries) == Some(keys[0]),
        keys.len() != 1 ==> only_key(entries) is None,
{
    assert forall|k: Seq<char>|
        entries.dom() == Set::<Seq<char>>::empty().insert(k) implies keys.len() == 1 && keys[0]
        == k by {
        keys.unique_seq_to_set();
        assert(keys.to_set().len() == 1);
        assert(keys.to_set().contains(keys[0]));
    }
    if keys.len() == 1 {
        assert(entries.dom() =~= Set::<Seq<char>>::empty().insert(keys[0])) by {
            assert forall|k: Seq<char>| keys.to_set().contains(k) implies k == keys[0] by {}
            assert(keys.to_set().contains(keys[0]));
        }
    }
}

/// A bare status.
fn read_bare_status(value: &serde_json::Value) -> (r: Option<A2aTaskStatus>)
    ensures
        r == bare_status(json_model(*value)),
{
    match json_str(value) {
        Some(name) => read_status_name(name),
        None => match json_keys(value) {
            Some(keys) => {
                proof {
                    lemma_only_key(texts(keys@), json_model(*value)->Object_0);
                }
                if keys.len() == 1 {
                    match json_member(value, keys[0].as_str()) {
                        Some(v) => if json_is_null(v) {
                            read_status_name(keys[0].as_str())
                        } else {
                            None
                        },
                        None => None,
                    }
                } else {
                    None
                }
            },
            None => None,
        },
    }
}

/// A status in its object form or its bare form.
pub fn read_status(value: &serde_json::Value) -> (r: Option<A2aTaskStatusWrapper>)
    ensures
        status_of(json_model(*value)) == match r {
            Some(s) => Some(s@),
            None => None,
        },
{
    let nested: Option<A2aTaskStatus> = match json_member(value, "state") {
        Some(state) => read_bare_status(state),
        None => None,
    };
    match nested {
        Some(state) => {
            let message: Option<serde_json::Value> = read_maybe_json(json_member(value, "message"));
            Some(A2aTaskStatusWrapper::Object { state, message })
        },
        None => match read_bare_status(value) {
            Some(state) => Some(A2aTaskStatusWrapper::Enum(state)),
            None => None,
        },
    }
}

/// A content part.
fn read_part(value: &serde_json::Value) -> (r: Option<A2aPart>)
    ensures
        part_of(json_model(*value)) == match r {
            Some(p) => Some(p@),
            None => None,
        },
{
    let tag: String = match read_text(read_field(value, "type", 0)) {
        Some(tag) => tag,
        None => return None,
    };
    if same_text(tag.as_str(), "text") {
        match read_text(read_field(value, "text", 1)) {
            Some(text) if fits_record(value, 2) => Some(A2aPart::Text { text }),
            _ => None,
        }
    } else if same_text(tag.as_str(), "file") {
        match (
            read_text(read_field(value, "name", 1)),
            read_text(read_field(value, "mime_type", 2)),
            read_text(read_field(value, "data", 3)),
        ) {
            (Some(name), Some(mime_type), Some(data)) if fits_record(value, 4) => Some(
                A2aPart::File { name, mime_type, data },
            ),
            _ => None,
        }
    } else if same_text(tag.as_str(), "data") {
        match (read_text(read_field(value, "mime_type", 1)), read_field(value, "data", 2)) {
            (Some(mime_type), Some(data)) if fits_record(value, 3) => Some(
                A2aPart::Data { mime_type, data: json_copy(data) },
            ),
            _ => None,
        }
    } else {
        None
    }
}

/// A list of content parts.
fn read_parts(value: Option<&serde_json::Value>) -> (r: Option<Vec<A2aPart>>)
    ensures
        parts_of(referred_model(value)) == match r {
            Some(parts) => Some(part_views(parts@)),
            None => None,
        },
{
    let items: &Vec<serde_json::Value> = match value {
        Some(v) => match json_array(v) {
            Some(items) => items,
            None => return None,
        },
        None => return None,
    };
    let ghost trees = json_models(items@);
    let ghost read = |p: JsonTree| part_of(p);
    assert(parts_of(referred_model(value)) == list_of(JsonTree::Array(trees), read));
    let mut out: Vec<A2aPart> = Vec::new();
    let mut i: usize = 0;
    while i < items.len()
        invariant
            i <= items.len(),
            trees == json_models(items@),
            parts_of(referred_model(value)) == list_of(JsonTree::Array(trees), read),
            read == (|p: JsonTree| part_of(p)),
            out@.len() == i,
            forall|j: int| 0 <= j < i ==> part_of(#[trigger] trees[j]) == Some(out@[j]@),
        decreases items.len() - i,
    {
        match read_part(&items[i]) {
            Some(part) => out.push(part),
            None => {
                assert(read(trees[i as int]) is None);
                return None;
            },
        }
        i = i + 1;
    }
    assert(parts_of(referred_model(value)).unwrap() =~= part_views(out@));
    Some(out)
}

/// A message.
pub fn read_message(value: &serde_json::Value) -> (r: Option<A2aMessage>)
    ensures
        message_of(json_model(*value)) == match r {
            Some(m) => Some(m@),
            None => None,
        },
{
    match (read_text(read_field(value, "role", 0)), read_parts(read_field(value, "parts", 1))) {
        (Some(role), Some(parts)) if fits_record(value, 2) => Some(A2aMessage { role, parts }),
        _ => None,
    }
}

/// An artifact.
pub fn read_artifact(value: &serde_json::Value) -> (r: Option<A2aArtifact>)
    ensures
        artifact_of(json_model(*value)) == match r {
            Some(a) => Some(a@),
            None => None,
        },
{
    match (
        read_maybe_text(read_field(value, "name", 0)),
        read_maybe_text(read_field(value, "description", 1)),
        read_maybe_u32(read_field(value, "index", 3)),
        read_maybe_bool(read_field(value, "lastChunk", 4)),
        read_parts(read_field(value, "parts", 5)),
    ) {
        (Some(name), Some(description), Some(index), Some(last_chunk), Some(parts)) if fits_record(
            value,
            6,
        ) => Some(
            A2aArtifact {
                name,
                description,
                metadata: read_maybe_json(read_field(value, "metadata", 2)),
                index,
                last_chunk,
                parts,
            },
        ),
        _ => None,
    }
}

/// A list of messages, empty if it is absent.
fn read_messages(value: Option<&serde_json::Value>) -> (r: Option<Vec<A2aMessage>>)
    ensures
        default_list_of(referred_model(value), |m: JsonTree| message_of(m)) == match r {
            Some(messages) => Some(message_views(messages@)),
            None => None,
        },
{
    let mut out: Vec<A2aMessage> = Vec::new();
    let items: &Vec<serde_json::Value> = match value {
        Some(v) => match json_array(v) {
            Some(items) => items,
            None => return None,
        },
        None => {
            assert(message_views(out@) =~= Seq::empty());
            return Some(out);
        },
    };
    let ghost trees = json_models(items@);
    let ghost read = |m: JsonTree| message_of(m);
    let mut i: usize = 0;
    while i < items.len()
        invariant
            i <= items.len(),
            trees == json_models(items@),
            referred_model(value) == Some(JsonTree::Array(trees)),
            read == (|m: JsonTree| message_of(m)),
            out@.len() == i,
            forall|j: int| 0 <= j < i ==> message_of(#[trigger] trees[j]) == Some(out@[j]@),
        decreases items.len() - i,
    {
        match read_message(&items[i]) {
            Some(message) => out.push(message),
            None => {
                assert(read(trees[i as int]) is None);
                return None;
            },
        }
        i = i + 1;
    }
    assert(default_list_of(referred_model(value), read).unwrap() =~= message_views(out@));
    Some(out)
}

/// A list of artifacts, empty if it is absent.
fn read_artifacts(value: Option<&serde_json::Value>) -> (r: Option<Vec<A2aArtifact>>)
    ensures
        default_list_of(referred_model(value), |a: JsonTree| artifact_of(a)) == match r {
            Some(artifacts) => Some(artifact_views(artifacts@)),
            None => None,
        },
{
    let mut out: Vec<A2aArtifact> = Vec::new();
    let items: &Vec<serde_json::Value> = match value {
        Some(v) => match json_array(v) {
            Some(items) => items,
            None => return None,
        },
        None => {
            assert(artifact_views(out@) =~= Seq::empty());
            return Some(out);
        },
    };
    let ghost trees = json_models(items@);
    let ghost read = |a: JsonTree| artifact_of(a);
    let mut i: usize = 0;
    while i < items.len()
        invariant
            i <= items.len(),
            trees == json_models(items@),
            referred_model(value) == Some(JsonTree::Array(trees)),
            read == (|a: JsonTree| artifact_of(a)),
            out@.len() == i,
            forall|j: int| 0 <= j < i ==> artifact_of(#[trigger] trees[j]) == Some(out@[j]@),
        decreases items.len() - i,
    {
        match read_artifact(&items[i]) {
            Some(artifact) => out.push(artifact),
            None => {
                assert(read(trees[i as int]) is None);
                return None;
            },
        }
        i = i + 1;
    }
    assert(default_list_of(referred_model(value), read).unwrap() =~= artifact_views(out@));
    Some(out)
}

/// A task.
pub fn read_task(value: &serde_json::Value) -> (r: Option<A2aTask>)
    ensures
        optional_task(r) == task_of(json_model(*value)),
{
    let status: Option<A2aTaskStatusWrapper> = match read_field(value, "status", 2) {
        Some(v) => read_status(v),
        None => None,
    };
    match (
        read_text(read_field(value, "id", 0)),
        read_maybe_text(read_field(value, "sessionId", 1)),
        status,
        read_messages(read_field(value, "messages", 3)),
        read_artifacts(read_field(value, "artifacts", 4)),
    ) {
        (Some(id), Some(session_id), Some(status), Some(messages), Some(artifacts)) if fits_record(
            value,
            5,
        ) => Some(A2aTask { id, session_id, status, messages, artifacts }),
        _ => None,
    }
}

} // verus!
