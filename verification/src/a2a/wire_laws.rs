//! Laws of the JSON forms of tasks, messages and artifacts: which member holds what.

use crate::a2a::encode::{
    artifact_tree, maybe_bool_tree, maybe_tree_tree, maybe_u32_tree, message_tree, part_tree,
    parts_tree, plain_task, status_name, status_tree, task_reads_back, task_tree,
};
use crate::a2a::types::{
    A2aArtifact, A2aMessage, A2aPart, A2aTask, A2aTaskStatus, A2aTaskStatusWrapper, ArtifactView,
    MessageView, PartView, StatusView, TaskView,
};
use crate::a2a::wire::{
    artifact_of, default_list_of, list_of, message_of, only_key, part_of, parts_of, status_of,
    task_of,
};
use crate::json::{
    entries_map, entry_is_member, json_model, maybe_text_tree, member, optional_model, JsonTree,
};
use crate::record::field;
use crate::text::optional_text;
use vstd::prelude::*;

verus! {

/// An optional text in JSON: the text, or `null`.
pub open spec fn text_or_null(text: Option<Seq<char>>) -> JsonTree {
    match text {
        Some(s) => JsonTree::Text(s),
        None => JsonTree::Null,
    }
}

/// The names of the fields of a task are five.
proof fn lemma_task_names()
    ensures
        "id"@ != "sessionId"@,
        "id"@ != "status"@,
        "id"@ != "messages"@,
        "id"@ != "artifacts"@,
        "sessionId"@ != "status"@,
        "sessionId"@ != "messages"@,
        "sessionId"@ != "artifacts"@,
        "status"@ != "messages"@,
        "status"@ != "artifacts"@,
        "messages"@ != "artifacts"@,
{
    reveal_strlit("id");
    reveal_strlit("sessionId");
    reveal_strlit("status");
    reveal_strlit("messages");
    reveal_strlit("artifacts");
    assert("id"@.len() == 2 && "status"@.len() == 6 && "messages"@.len() == 8);
    assert("sessionId"@.len() == 9 && "artifacts"@.len() == 9);
    assert("sessionId"@[0] == 's' && "artifacts"@[0] == 'a');
}

/// A written task has five members: its id, its session, its status, and its messages and
/// artifacts, each one in its place.
pub proof fn task_is_written_by_fields(task: TaskView)
    ensures
        ({
            let tree = task_tree(task);
            &&& member(tree, "id"@) == Some(JsonTree::Text(task.id))
            &&& member(tree, "sessionId"@) == Some(text_or_null(task.session_id))
            &&& member(tree, "status"@) == Some(status_tree(task.status))
            &&& member(tree, "messages"@) matches Some(JsonTree::Array(items)) && items.len()
                == task.messages.len() && forall|i: int|
                0 <= i < items.len() ==> #[trigger] items[i] == message_tree(task.messages[i])
            &&& member(tree, "artifacts"@) matches Some(JsonTree::Array(items)) && items.len()
                == task.artifacts.len() && forall|i: int|
                0 <= i < items.len() ==> #[trigger] items[i] == artifact_tree(task.artifacts[i])
        }),
{
    lemma_task_names();
    let e = seq![
        ("id"@, JsonTree::Text(task.id)),
        ("sessionId"@, text_or_null(task.session_id)),
        ("status"@, status_tree(task.status)),
        (
            "messages"@,
            JsonTree::Array(task.messages.map_values(|m: MessageView| message_tree(m))),
        ),
        (
            "artifacts"@,
            JsonTree::Array(task.artifacts.map_values(|a: ArtifactView| artifact_tree(a))),
        ),
    ];
    assert(task_tree(task) == JsonTree::Object(entries_map(e)));
    entry_is_member(e, 0);
    entry_is_member(e, 1);
    entry_is_member(e, 2);
    entry_is_member(e, 3);
    entry_is_member(e, 4);
}

/// The names of the fields of an artifact are six.
proof fn lemma_artifact_names()
    ensures
        "name"@ != "description"@,
        "name"@ != "metadata"@,
        "name"@ != "index"@,
        "name"@ != "lastChunk"@,
        "name"@ != "parts"@,
        "description"@ != "metadata"@,
        "description"@ != "index"@,
        "description"@ != "lastChunk"@,
        "description"@ != "parts"@,
        "metadata"@ != "index"@,
        "metadata"@ != "lastChunk"@,
        "metadata"@ != "parts"@,
        "index"@ != "lastChunk"@,
        "index"@ != "parts"@,
        "lastChunk"@ != "parts"@,
{
    reveal_strlit("name");
    reveal_strlit("description");
    reveal_strlit("metadata");
    reveal_strlit("index");
    reveal_strlit("lastChunk");
    reveal_strlit("parts");
    assert("name"@.len() == 4 && "description"@.len() == 11 && "metadata"@.len() == 8);
    assert("index"@.len() == 5 && "lastChunk"@.len() == 9 && "parts"@.len() == 5);
    assert("index"@[0] == 'i' && "parts"@[0] == 'p');
}

/// A written artifact has six members, each field of it under its own name.
pub proof fn artifact_is_written_by_fields(artifact: ArtifactView)
    ensures
        ({
            let tree = artifact_tree(artifact);
            &&& member(tree, "name"@) == Some(text_or_null(artifact.name))
            &&& member(tree, "description"@) == Some(text_or_null(artifact.description))
            &&& member(tree, "metadata"@) == Some(
                match artifact.metadata {
                    Some(value) => value,
                    None => JsonTree::Null,
                },
            )
            &&& member(tree, "index"@) matches Some(value) && match artifact.index {
                Some(n) => value matches JsonTree::Number { unsigned: Some(m), .. } && m == n,
                None => value is Null,
            }
            &&& member(tree, "lastChunk"@) == Some(
                match artifact.last_chunk {
                    Some(b) => JsonTree::Bool(b),
                    None => JsonTree::Null,
                },
            )
            &&& member(tree, "parts"@) matches Some(JsonTree::Array(items)) && items.len()
                == artifact.parts.len() && forall|i: int|
                0 <= i < items.len() ==> #[trigger] items[i] == part_tree(artifact.parts[i])
        }),
{
    lemma_artifact_names();
    let e = seq![
        ("name"@, maybe_text_tree(artifact.name)),
        ("description"@, maybe_text_tree(artifact.description)),
        ("metadata"@, maybe_tree_tree(artifact.metadata)),
        ("index"@, maybe_u32_tree(artifact.index)),
        ("lastChunk"@, maybe_bool_tree(artifact.last_chunk)),
        ("parts"@, parts_tree(artifact.parts)),
    ];
    assert(artifact_tree(artifact) == JsonTree::Object(entries_map(e)));
    entry_is_member(e, 0);
    entry_is_member(e, 1);
    entry_is_member(e, 2);
    entry_is_member(e, 3);
    entry_is_member(e, 4);
    entry_is_member(e, 5);
}

/// A written message has its role and its parts.
pub proof fn message_is_written_by_fields(message: MessageView)
    ensures
        ({
            let tree = message_tree(message);
            &&& member(tree, "role"@) == Some(JsonTree::Text(message.role))
            &&& member(tree, "parts"@) matches Some(JsonTree::Array(items)) && items.len()
                == message.parts.len() && forall|i: int|
                0 <= i < items.len() ==> #[trigger] items[i] == part_tree(message.parts[i])
        }),
{
    reveal_strlit("role");
    reveal_strlit("parts");
    assert("role"@.len() == 4 && "parts"@.len() == 5);
    let e = seq![
        ("role"@, JsonTree::Text(message.role)),
        ("parts"@, parts_tree(message.parts)),
    ];
    assert(message_tree(message) == JsonTree::Object(entries_map(e)));
    entry_is_member(e, 0);
    entry_is_member(e, 1);
}

/// A written content part says under `type` which kind it is, and has each of its fields under
/// its own name.
pub proof fn part_is_written_by_fields(part: PartView)
    ensures
        ({
            let tree = part_tree(part);
            match part {
                PartView::Text { text } => {
                    &&& member(tree, "type"@) == Some(JsonTree::Text("text"@))
                    &&& member(tree, "text"@) == Some(JsonTree::Text(text))
                },
                PartView::File { name, mime_type, data } => {
                    &&& member(tree, "type"@) == Some(JsonTree::Text("file"@))
                    &&& member(tree, "name"@) == Some(JsonTree::Text(name))
                    &&& member(tree, "mime_type"@) == Some(JsonTree::Text(mime_type))
                    &&& member(tree, "data"@) == Some(JsonTree::Text(data))
                },
                PartView::Data { mime_type, data } => {
                    &&& member(tree, "type"@) == Some(JsonTree::Text("data"@))
                    &&& member(tree, "mime_type"@) == Some(JsonTree::Text(mime_type))
                    &&& member(tree, "data"@) == Some(data)
                },
            }
        }),
{
    reveal_strlit("type");
    reveal_strlit("text");
    reveal_strlit("name");
    reveal_strlit("mime_type");
    reveal_strlit("data");
    assert("type"@.len() == 4 && "mime_type"@.len() == 9);
    assert("name"@.len() == 4 && "data"@.len() == 4);
    assert("type"@[1] == 'y' && "text"@[1] == 'e' && "data"@[1] == 'a');
    assert("type"@[0] == 't' && "name"@[0] == 'n' && "data"@[0] == 'd');
    match part {
        PartView::Text { text } => {
            let e = seq![("type"@, JsonTree::Text("text"@)), ("text"@, JsonTree::Text(text))];
            entry_is_member(e, 0);
            entry_is_member(e, 1);
        },
        PartView::File { name, mime_type, data } => {
            let e = seq![
                ("type"@, JsonTree::Text("file"@)),
                ("name"@, JsonTree::Text(name)),
                ("mime_type"@, JsonTree::Text(mime_type)),
                ("data"@, JsonTree::Text(data)),
            ];
            entry_is_member(e, 0);
            entry_is_member(e, 1);
            entry_is_member(e, 2);
            entry_is_member(e, 3);
        },
        PartView::Data { mime_type, data } => {
            let e = seq![
                ("type"@, JsonTree::Text("data"@)),
                ("mime_type"@, JsonTree::Text(mime_type)),
                ("data"@, data),
            ];
            entry_is_member(e, 0);
            entry_is_member(e, 1);
            entry_is_member(e, 2);
        },
    }
}

/// The name of each status.
pub open spec fn is_name_of(name: Seq<char>, status: A2aTaskStatus) -> bool {
    match status {
        A2aTaskStatus::Submitted => name == "submitted"@,
        A2aTaskStatus::Working => name == "working"@,
        A2aTaskStatus::InputRequired => name == "inputRequired"@,
        A2aTaskStatus::Completed => name == "completed"@,
        A2aTaskStatus::Cancelled => name == "cancelled"@,
        A2aTaskStatus::Failed => name == "failed"@,
    }
}

/// A status is written as its name, bare or under `state` beside its message; and a bare text is
/// read as a status exactly if it is the name of one.
pub proof fn status_goes_by_name(status: A2aTaskStatus, message: Option<JsonTree>, text: Seq<char>)
    ensures
        status_tree(StatusView::Enum(status)) matches JsonTree::Text(name) && is_name_of(
            name,
            status,
        ),
        ({
            let tree = status_tree(StatusView::Object { state: status, message });
            &&& member(tree, "state"@) matches Some(JsonTree::Text(name)) && is_name_of(
                name,
                status,
            )
            &&& member(tree, "message"@) == Some(
                match message {
                    Some(value) => value,
                    None => JsonTree::Null,
                },
            )
        }),
        status_of(JsonTree::Text(text)) == Some(StatusView::Enum(status)) <==> is_name_of(
            text,
            status,
        ),
{
    reveal_strlit("state");
    reveal_strlit("message");
    reveal_strlit("submitted");
    reveal_strlit("working");
    reveal_strlit("inputRequired");
    reveal_strlit("completed");
    reveal_strlit("cancelled");
    reveal_strlit("failed");
    assert("state"@.len() == 5 && "message"@.len() == 7);
    assert("submitted"@.len() == 9 && "working"@.len() == 7 && "inputRequired"@.len() == 13);
    assert("completed"@.len() == 9 && "cancelled"@.len() == 9 && "failed"@.len() == 6);
    assert("submitted"@[0] == 's' && "completed"@[0] == 'c' && "cancelled"@[0] == 'c');
    assert("completed"@[1] == 'o' && "cancelled"@[1] == 'a');
    let e = seq![
        ("state"@, JsonTree::Text(status_name(status))),
        ("message"@, maybe_tree_tree(message)),
    ];
    entry_is_member(e, 0);
    entry_is_member(e, 1);
}

/// What an object holds beyond the fields of a task does not matter to the task.
pub proof fn unknown_members_are_ignored(
    entries: Map<Seq<char>, JsonTree>,
    key: Seq<char>,
    value: JsonTree,
)
    requires
        key != "id"@,
        key != "sessionId"@,
        key != "status"@,
        key != "messages"@,
        key != "artifacts"@,
    ensures
        task_of(JsonTree::Object(entries.insert(key, value))) == task_of(JsonTree::Object(entries)),
{
    let a = JsonTree::Object(entries);
    let b = JsonTree::Object(entries.insert(key, value));
    assert(field(a, "id"@, 0) == field(b, "id"@, 0));
    assert(field(a, "sessionId"@, 1) == field(b, "sessionId"@, 1));
    assert(field(a, "status"@, 2) == field(b, "status"@, 2));
    assert(field(a, "messages"@, 3) == field(b, "messages"@, 3));
    assert(field(a, "artifacts"@, 4) == field(b, "artifacts"@, 4));
}

/// A task that is read has what stands in its object: the id, the session if there is one, the
/// status, and a message and an artifact for each that is listed, in their order.
pub proof fn task_is_read_by_fields(entries: Map<Seq<char>, JsonTree>, task: TaskView)
    requires
        task_of(JsonTree::Object(entries)) == Some(task),
    ensures
        ({
            let tree = JsonTree::Object(entries);
            &&& member(tree, "id"@) == Some(JsonTree::Text(task.id))
            &&& match member(tree, "sessionId"@) {
                Some(JsonTree::Text(s)) => task.session_id == Some(s),
                Some(other) => other is Null && task.session_id is None,
                None => task.session_id is None,
            }
            &&& member(tree, "status"@) matches Some(s) && status_of(s) == Some(task.status)
            &&& match member(tree, "messages"@) {
                Some(JsonTree::Array(items)) => items.len() == task.messages.len() && forall|i: int|
                    0 <= i < items.len() ==> message_of(#[trigger] items[i]) == Some(
                        task.messages[i],
                    ),
                Some(_) => false,
                None => task.messages.len() == 0,
            }
            &&& match member(tree, "artifacts"@) {
                Some(JsonTree::Array(items)) => items.len() == task.artifacts.len() && forall|
                    i: int,
                |
                    0 <= i < items.len() ==> artifact_of(#[trigger] items[i]) == Some(
                        task.artifacts[i],
                    ),
                Some(_) => false,
                None => task.artifacts.len() == 0,
            }
        }),
{
    let tree = JsonTree::Object(entries);
    let read_message = |m: JsonTree| message_of(m);
    let read_artifact = |a: JsonTree| artifact_of(a);
    assert(default_list_of(field(tree, "messages"@, 3), read_message) == Some(task.messages));
    assert(default_list_of(field(tree, "artifacts"@, 4), read_artifact) == Some(task.artifacts));
    if let Some(JsonTree::Array(items)) = member(tree, "messages"@) {
        assert forall|i: int| 0 <= i < items.len() implies message_of(#[trigger] items[i]) == Some(
            task.messages[i],
        ) by {
            assert(read_message(items[i]) is Some);
        }
    }
    if let Some(JsonTree::Array(items)) = member(tree, "artifacts"@) {
        assert forall|i: int| 0 <= i < items.len() implies artifact_of(#[trigger] items[i]) == Some(
            task.artifacts[i],
        ) by {
            assert(read_artifact(items[i]) is Some);
        }
    }
}

/// An artifact that is read has what stands in its object.
pub proof fn artifact_is_read_by_fields(entries: Map<Seq<char>, JsonTree>, artifact: ArtifactView)
    requires
        artifact_of(JsonTree::Object(entries)) == Some(artifact),
    ensures
        ({
            let tree = JsonTree::Object(entries);
            &&& match member(tree, "name"@) {
                Some(JsonTree::Text(s)) => artifact.name == Some(s),
                Some(other) => other is Null && artifact.name is None,
                None => artifact.name is None,
            }
            &&& match member(tree, "description"@) {
                Some(JsonTree::Text(s)) => artifact.description == Some(s),
                Some(other) => other is Null && artifact.description is None,
                None => artifact.description is None,
            }
            &&& match member(tree, "metadata"@) {
                Some(JsonTree::Null) => artifact.metadata is None,
                Some(value) => artifact.metadata == Some(value),
                None => artifact.metadata is None,
            }
            &&& match member(tree, "index"@) {
                Some(JsonTree::Number { unsigned: Some(n), .. }) => artifact.index matches Some(m)
                    && m == n,
                Some(other) => other is Null && artifact.index is None,
                None => artifact.index is None,
            }
            &&& match member(tree, "lastChunk"@) {
                Some(JsonTree::Bool(b)) => artifact.last_chunk == Some(b),
                Some(other) => other is Null && artifact.last_chunk is None,
                None => artifact.last_chunk is None,
            }
            &&& member(tree, "parts"@) matches Some(JsonTree::Array(items)) && items.len()
                == artifact.parts.len() && forall|i: int|
                0 <= i < items.len() ==> part_of(#[trigger] items[i]) == Some(artifact.parts[i])
        }),
{
    let tree = JsonTree::Object(entries);
    lemma_parts_by_items(member(tree, "parts"@), artifact.parts);
}

/// Parts that are read are those that are listed.
proof fn lemma_parts_by_items(tree: Option<JsonTree>, parts: Seq<PartView>)
    requires
        parts_of(tree) == Some(parts),
    ensures
        tree matches Some(JsonTree::Array(items)) && items.len() == parts.len() && forall|i: int|
            0 <= i < items.len() ==> part_of(#[trigger] items[i]) == Some(parts[i]),
{
    let read = |p: JsonTree| part_of(p);
    assert(list_of(tree->0, read) == Some(parts));
    if let Some(JsonTree::Array(items)) = tree {
        assert forall|i: int| 0 <= i < items.len() implies part_of(#[trigger] items[i]) == Some(
            parts[i],
        ) by {
            assert(read(items[i]) is Some);
        }
    }
}

/// A message that is read has the role and the parts that stand in its object.
pub proof fn message_is_read_by_fields(entries: Map<Seq<char>, JsonTree>, message: MessageView)
    requires
        message_of(JsonTree::Object(entries)) == Some(message),
    ensures
        ({
            let tree = JsonTree::Object(entries);
            &&& member(tree, "role"@) == Some(JsonTree::Text(message.role))
            &&& member(tree, "parts"@) matches Some(JsonTree::Array(items)) && items.len()
                == message.parts.len() && forall|i: int|
                0 <= i < items.len() ==> part_of(#[trigger] items[i]) == Some(message.parts[i])
        }),
{
    lemma_parts_by_items(member(JsonTree::Object(entries), "parts"@), message.parts);
}

/// A task can be read whether its fields stand in an object under their names or in an array in
/// their order.
pub proof fn task_forms_agree(
    id: JsonTree,
    session_id: JsonTree,
    status: JsonTree,
    messages: JsonTree,
    artifacts: JsonTree,
)
    ensures
        task_of(JsonTree::Array(seq![id, session_id, status, messages, artifacts])) == task_of(
            JsonTree::Object(
                entries_map(
                    seq![
                        ("id"@, id),
                        ("sessionId"@, session_id),
                        ("status"@, status),
                        ("messages"@, messages),
                        ("artifacts"@, artifacts),
                    ],
                ),
            ),
        ),
{
    lemma_task_names();
    let e = seq![
        ("id"@, id),
        ("sessionId"@, session_id),
        ("status"@, status),
        ("messages"@, messages),
        ("artifacts"@, artifacts),
    ];
    entry_is_member(e, 0);
    entry_is_member(e, 1);
    entry_is_member(e, 2);
    entry_is_member(e, 3);
    entry_is_member(e, 4);
    let a = JsonTree::Array(seq![id, session_id, status, messages, artifacts]);
    let b = JsonTree::Object(entries_map(e));
    assert(field(a, "id"@, 0) == field(b, "id"@, 0));
    assert(field(a, "sessionId"@, 1) == field(b, "sessionId"@, 1));
    assert(field(a, "status"@, 2) == field(b, "status"@, 2));
    assert(field(a, "messages"@, 3) == field(b, "messages"@, 3));
    assert(field(a, "artifacts"@, 4) == field(b, "artifacts"@, 4));
}

/// A task without a session, messages or artifacts in its object has none: an absent session is
/// like `null`, and an absent list like an empty one.
pub proof fn absent_fields_are_empty(entries: Map<Seq<char>, JsonTree>)
    ensures
        !entries.contains_key("sessionId"@) ==> task_of(JsonTree::Object(entries)) == task_of(
            JsonTree::Object(entries.insert("sessionId"@, JsonTree::Null)),
        ),
        !entries.contains_key("messages"@) ==> task_of(JsonTree::Object(entries)) == task_of(
            JsonTree::Object(entries.insert("messages"@, JsonTree::Array(Seq::empty()))),
        ),
        !entries.contains_key("artifacts"@) ==> task_of(JsonTree::Object(entries)) == task_of(
            JsonTree::Object(entries.insert("artifacts"@, JsonTree::Array(Seq::empty()))),
        ),
{
    lemma_task_names();
    let none = JsonTree::Array(Seq::empty());
    let read_message = |m: JsonTree| message_of(m);
    let read_artifact = |a: JsonTree| artifact_of(a);
    assert(list_of(none, read_message).unwrap() =~= Seq::empty());
    assert(list_of(none, read_artifact).unwrap() =~= Seq::empty());
    let a = JsonTree::Object(entries);
    let b = JsonTree::Object(entries.insert("sessionId"@, JsonTree::Null));
    let c = JsonTree::Object(entries.insert("messages"@, none));
    let d = JsonTree::Object(entries.insert("artifacts"@, none));
    assert(field(a, "id"@, 0) == field(b, "id"@, 0));
    assert(field(a, "id"@, 0) == field(c, "id"@, 0));
    assert(field(a, "id"@, 0) == field(d, "id"@, 0));
    assert(field(a, "sessionId"@, 1) == field(c, "sessionId"@, 1));
    assert(field(a, "sessionId"@, 1) == field(d, "sessionId"@, 1));
    assert(field(a, "status"@, 2) == field(b, "status"@, 2));
    assert(field(a, "status"@, 2) == field(c, "status"@, 2));
    assert(field(a, "status"@, 2) == field(d, "status"@, 2));
    assert(field(a, "messages"@, 3) == field(b, "messages"@, 3));
    assert(field(a, "messages"@, 3) == field(d, "messages"@, 3));
    assert(field(a, "artifacts"@, 4) == field(b, "artifacts"@, 4));
    assert(field(a, "artifacts"@, 4) == field(c, "artifacts"@, 4));
}

/// A written task is read as it was, also with further members beside its own.
pub proof fn marked_task_reads_back(task: TaskView, key: Seq<char>, value: JsonTree)
    requires
        plain_task(task),
        key != "id"@,
        key != "sessionId"@,
        key != "status"@,
        key != "messages"@,
        key != "artifacts"@,
    ensures
        task_of(JsonTree::Object(task_tree(task)->Object_0.insert(key, value))) == Some(task),
{
    task_reads_back(task);
    unknown_members_are_ignored(task_tree(task)->Object_0, key, value);
}

/// What is stated of a task speaks of its fields.
pub proof fn task_shows_its_fields(task: A2aTask)
    ensures
        task@.id == task.id@,
        task@.session_id == optional_text(task.session_id),
        task@.status == task.status@,
        task@.messages.len() == task.messages@.len(),
        forall|i: int|
            0 <= i < task.messages@.len() ==> #[trigger] task@.messages[i] == task.messages@[i]@,
        task@.artifacts.len() == task.artifacts@.len(),
        forall|i: int|
            0 <= i < task.artifacts@.len() ==> #[trigger] task@.artifacts[i] == task.artifacts@[i]@,
{
}

/// What is stated of a message, an artifact, a status or a content part speaks of its fields.
pub proof fn parts_of_a_task_show_their_fields(
    message: A2aMessage,
    artifact: A2aArtifact,
    status: A2aTaskStatusWrapper,
    part: A2aPart,
)
    ensures
        message@.role == message.role@,
        message@.parts.len() == message.parts@.len(),
        forall|i: int|
            0 <= i < message.parts@.len() ==> #[trigger] message@.parts[i] == message.parts@[i]@,
        artifact@.name == optional_text(artifact.name),
        artifact@.description == optional_text(artifact.description),
        artifact@.metadata == optional_model(artifact.metadata),
        artifact@.index == artifact.index,
        artifact@.last_chunk == artifact.last_chunk,
        artifact@.parts.len() == artifact.parts@.len(),
        forall|i: int|
            0 <= i < artifact.parts@.len() ==> #[trigger] artifact@.parts[i]
                == artifact.parts@[i]@,
        match status {
            A2aTaskStatusWrapper::Object { state, message } => status@ == (StatusView::Object {
                state,
                message: optional_model(message),
            }) && status@.state() == state,
            A2aTaskStatusWrapper::Enum(state) => status@ == StatusView::Enum(state)
                && status@.state() == state,
        },
        match part {
            A2aPart::Text { text } => part@ == (PartView::Text { text: text@ }),
            A2aPart::File { name, mime_type, data } => part@ == (PartView::File {
                name: name@,
                mime_type: mime_type@,
                data: data@,
            }),
            A2aPart::Data { mime_type, data } => part@ == (PartView::Data {
                mime_type: mime_type@,
                data: json_model(data),
            }),
        },
{
}

/// A list is read exactly if each of its items is, and then it has what they are read as.
proof fn lemma_list_is_read<T>(tree: JsonTree, read: spec_fn(JsonTree) -> Option<T>)
    ensures
        list_of(tree, read) is Some <==> (tree matches JsonTree::Array(items) && forall|i: int|
            0 <= i < items.len() ==> (#[trigger] read(items[i])) is Some),
{
}

/// A JSON object is a task exactly if it has a text under `id`, a text, `null` or nothing under
/// `sessionId`, a status under `status`, and under `messages` and `artifacts` nothing or a list
/// of those; whatever else it has.
pub proof fn object_is_task_by_fields(entries: Map<Seq<char>, JsonTree>)
    ensures
        task_of(JsonTree::Object(entries)) is Some <==> {
            let tree = JsonTree::Object(entries);
            &&& member(tree, "id"@) matches Some(JsonTree::Text(_))
            &&& match member(tree, "sessionId"@) {
                Some(session) => session is Text || session is Null,
                None => true,
            }
            &&& member(tree, "status"@) matches Some(status) && status_of(status) is Some
            &&& match member(tree, "messages"@) {
                Some(list) => list is Array && forall|i: int|
                    0 <= i < list->Array_0.len() ==> message_of(
                        #[trigger] list->Array_0[i],
                    ) is Some,
                None => true,
            }
            &&& match member(tree, "artifacts"@) {
                Some(list) => list is Array && forall|i: int|
                    0 <= i < list->Array_0.len() ==> artifact_of(
                        #[trigger] list->Array_0[i],
                    ) is Some,
                None => true,
            }
        },
{
    let tree = JsonTree::Object(entries);
    let read_message = |m: JsonTree| message_of(m);
    let read_artifact = |a: JsonTree| artifact_of(a);
    if let Some(list) = member(tree, "messages"@) {
        lemma_list_is_read(list, read_message);
        if list is Array {
            let items = list->Array_0;
            assert forall|i: int| 0 <= i < items.len() implies (#[trigger] read_message(items[i]))
                == message_of(items[i]) by {}
            if forall|i: int| 0 <= i < items.len() ==> (#[trigger] read_message(items[i])) is Some {
                assert forall|i: int| 0 <= i < items.len() implies message_of(
                    #[trigger] items[i],
                ) is Some by {
                    assert(read_message(items[i]) is Some);
                }
            }
        }
    }
    if let Some(list) = member(tree, "artifacts"@) {
        lemma_list_is_read(list, read_artifact);
        if list is Array {
            let items = list->Array_0;
            if forall|i: int| 0 <= i < items.len() ==> (
            #[trigger] read_artifact(items[i])) is Some {
                assert forall|i: int| 0 <= i < items.len() implies artifact_of(
                    #[trigger] items[i],
                ) is Some by {
                    assert(read_artifact(items[i]) is Some);
                }
            }
        }
    }
}

/// A JSON object is a content part by its `type`: a text part has a text under `text`; a file has
/// texts under `name`, `mime_type` and `data`; data have a text under `mime_type` and anything
/// under `data`. Nothing else is a part.
pub proof fn object_is_part_by_type(entries: Map<Seq<char>, JsonTree>, part: PartView)
    ensures
        part_of(JsonTree::Object(entries)) == Some(part) <==> {
            let tree = JsonTree::Object(entries);
            match part {
                PartView::Text { text } => {
                    &&& member(tree, "type"@) == Some(JsonTree::Text("text"@))
                    &&& member(tree, "text"@) == Some(JsonTree::Text(text))
                },
                PartView::File { name, mime_type, data } => {
                    &&& member(tree, "type"@) == Some(JsonTree::Text("file"@))
                    &&& member(tree, "name"@) == Some(JsonTree::Text(name))
                    &&& member(tree, "mime_type"@) == Some(JsonTree::Text(mime_type))
                    &&& member(tree, "data"@) == Some(JsonTree::Text(data))
                },
                PartView::Data { mime_type, data } => {
                    &&& member(tree, "type"@) == Some(JsonTree::Text("data"@))
                    &&& member(tree, "mime_type"@) == Some(JsonTree::Text(mime_type))
                    &&& member(tree, "data"@) == Some(data)
                },
            }
        },
{
    reveal_strlit("text");
    reveal_strlit("file");
    reveal_strlit("data");
    assert("text"@[0] == 't' && "file"@[0] == 'f' && "data"@[0] == 'd');
}

/// A JSON object with the name of a status under `state` is that status, with what stands under
/// `message`, if anything does and is not `null`.
pub proof fn object_is_status_by_state(
    entries: Map<Seq<char>, JsonTree>,
    name: Seq<char>,
    status: A2aTaskStatus,
)
    requires
        member(JsonTree::Object(entries), "state"@) == Some(JsonTree::Text(name)),
        is_name_of(name, status),
    ensures
        status_of(JsonTree::Object(entries)) matches Some(StatusView::Object { state, message })
            && state == status && match member(JsonTree::Object(entries), "message"@) {
            Some(JsonTree::Null) => message is None,
            Some(value) => message == Some(value),
            None => message is None,
        },
{
    status_goes_by_name(status, None, name);
}

/// What is neither a text nor an object is no status.
pub proof fn other_trees_are_no_status(tree: JsonTree)
    requires
        !(tree is Text),
        !(tree is Object),
    ensures
        status_of(tree) is None,
{
}

/// A message and an artifact can be read whether their fields stand in an object under their
/// names or in an array in their order.
pub proof fn message_and_artifact_forms_agree(
    role: JsonTree,
    parts: JsonTree,
    name: JsonTree,
    description: JsonTree,
    metadata: JsonTree,
    index: JsonTree,
    last_chunk: JsonTree,
)
    ensures
        message_of(JsonTree::Array(seq![role, parts])) == message_of(
            JsonTree::Object(entries_map(seq![("role"@, role), ("parts"@, parts)])),
        ),
        artifact_of(
            JsonTree::Array(seq![name, description, metadata, index, last_chunk, parts]),
        ) == artifact_of(
            JsonTree::Object(
                entries_map(
                    seq![
                        ("name"@, name),
                        ("description"@, description),
                        ("metadata"@, metadata),
                        ("index"@, index),
                        ("lastChunk"@, last_chunk),
                        ("parts"@, parts),
                    ],
                ),
            ),
        ),
{
    reveal_strlit("role");
    reveal_strlit("parts");
    assert("role"@.len() == 4 && "parts"@.len() == 5);
    let m = seq![("role"@, role), ("parts"@, parts)];
    entry_is_member(m, 0);
    entry_is_member(m, 1);
    let a = JsonTree::Array(seq![role, parts]);
    let b = JsonTree::Object(entries_map(m));
    assert(field(a, "role"@, 0) == field(b, "role"@, 0));
    assert(field(a, "parts"@, 1) == field(b, "parts"@, 1));
    lemma_artifact_names();
    let e = seq![
        ("name"@, name),
        ("description"@, description),
        ("metadata"@, metadata),
        ("index"@, index),
        ("lastChunk"@, last_chunk),
        ("parts"@, parts),
    ];
    entry_is_member(e, 0);
    entry_is_member(e, 1);
    entry_is_member(e, 2);
    entry_is_member(e, 3);
    entry_is_member(e, 4);
    entry_is_member(e, 5);
    let c = JsonTree::Array(seq![name, description, metadata, index, last_chunk, parts]);
    let d = JsonTree::Object(entries_map(e));
    assert(field(c, "name"@, 0) == field(d, "name"@, 0));
    assert(field(c, "description"@, 1) == field(d, "description"@, 1));
    assert(field(c, "metadata"@, 2) == field(d, "metadata"@, 2));
    assert(field(c, "index"@, 3) == field(d, "index"@, 3));
    assert(field(c, "lastChunk"@, 4) == field(d, "lastChunk"@, 4));
    assert(field(c, "parts"@, 5) == field(d, "parts"@, 5));
}

/// What the object of a message or of an artifact holds beyond their fields does not matter, and
/// an optional field of an artifact that is absent is like one that is `null`.
pub proof fn other_members_do_not_matter(
    entries: Map<Seq<char>, JsonTree>,
    key: Seq<char>,
    value: JsonTree,
)
    ensures
        key != "role"@ && key != "parts"@ ==> message_of(
            JsonTree::Object(entries.insert(key, value)),
        ) == message_of(JsonTree::Object(entries)),
        key != "name"@ && key != "description"@ && key != "metadata"@ && key != "index"@ && key
            != "lastChunk"@ && key != "parts"@ ==> artifact_of(
            JsonTree::Object(entries.insert(key, value)),
        ) == artifact_of(JsonTree::Object(entries)),
        !entries.contains_key(key) && (key == "name"@ || key == "description"@ || key
            == "metadata"@ || key == "index"@ || key == "lastChunk"@) ==> artifact_of(
            JsonTree::Object(entries.insert(key, JsonTree::Null)),
        ) == artifact_of(JsonTree::Object(entries)),
{
    lemma_artifact_names();
    let a = JsonTree::Object(entries);
    let b = JsonTree::Object(entries.insert(key, value));
    let c = JsonTree::Object(entries.insert(key, JsonTree::Null));
    assert(key != "role"@ ==> field(a, "role"@, 0) == field(b, "role"@, 0));
    assert(key != "parts"@ ==> field(a, "parts"@, 1) == field(b, "parts"@, 1));
    assert(key != "name"@ ==> field(a, "name"@, 0) == field(b, "name"@, 0) && field(a, "name"@, 0)
        == field(c, "name"@, 0));
    assert(key != "description"@ ==> field(a, "description"@, 1) == field(b, "description"@, 1)
        && field(a, "description"@, 1) == field(c, "description"@, 1));
    assert(key != "metadata"@ ==> field(a, "metadata"@, 2) == field(b, "metadata"@, 2) && field(
        a,
        "metadata"@,
        2,
    ) == field(c, "metadata"@, 2));
    assert(key != "index"@ ==> field(a, "index"@, 3) == field(b, "index"@, 3) && field(
        a,
        "index"@,
        3,
    ) == field(c, "index"@, 3));
    assert(key != "lastChunk"@ ==> field(a, "lastChunk"@, 4) == field(b, "lastChunk"@, 4) && field(
        a,
        "lastChunk"@,
        4,
    ) == field(c, "lastChunk"@, 4));
    assert(key != "parts"@ ==> field(a, "parts"@, 5) == field(b, "parts"@, 5) && field(
        a,
        "parts"@,
        5,
    ) == field(c, "parts"@, 5));
}

/// An array with more items than there are fields is no task, no message and no artifact; and an
/// array of a task may end before its messages and artifacts, of which it then has none.
pub proof fn arrays_have_the_right_length(
    items: Seq<JsonTree>,
    id: JsonTree,
    session_id: JsonTree,
    status: JsonTree,
)
    ensures
        items.len() > 5 ==> task_of(JsonTree::Array(items)) is None,
        items.len() > 2 ==> message_of(JsonTree::Array(items)) is None,
        items.len() > 6 ==> artifact_of(JsonTree::Array(items)) is None,
        task_of(JsonTree::Array(seq![id, session_id, status])) == task_of(
            JsonTree::Array(
                seq![
                    id,
                    session_id,
                    status,
                    JsonTree::Array(Seq::empty()),
                    JsonTree::Array(Seq::empty()),
                ],
            ),
        ),
{
    let none = JsonTree::Array(Seq::empty());
    let read_message = |m: JsonTree| message_of(m);
    let read_artifact = |a: JsonTree| artifact_of(a);
    assert(list_of(none, read_message).unwrap() =~= Seq::empty());
    assert(list_of(none, read_artifact).unwrap() =~= Seq::empty());
    let a = JsonTree::Array(seq![id, session_id, status]);
    let b = JsonTree::Array(seq![id, session_id, status, none, none]);
    assert(field(a, "id"@, 0) == field(b, "id"@, 0));
    assert(field(a, "sessionId"@, 1) == field(b, "sessionId"@, 1));
    assert(field(a, "status"@, 2) == field(b, "status"@, 2));
}

/// What is no JSON object and no array is no task, no message, no artifact and no part.
pub proof fn scalars_are_none_of_these(tree: JsonTree)
    requires
        !(tree is Object),
        !(tree is Array),
    ensures
        task_of(tree) is None,
        message_of(tree) is None,
        artifact_of(tree) is None,
        part_of(tree) is None,
{
}

/// An object that maps the name of a status, and nothing else, to `null` is that status.
pub proof fn status_may_be_a_key(name: Seq<char>, status: A2aTaskStatus)
    requires
        is_name_of(name, status),
    ensures
        status_of(JsonTree::Object(Map::empty().insert(name, JsonTree::Null))) == Some(
            StatusView::Enum(status),
        ),
{
    let entries = Map::<Seq<char>, JsonTree>::empty().insert(name, JsonTree::Null);
    let single = Set::<Seq<char>>::empty().insert(name);
    assert(entries.dom() =~= single);
    let key = only_key(entries)->0;
    assert(Set::<Seq<char>>::empty().insert(key).contains(key));
    assert(single.contains(key));
    status_goes_by_name(status, None, name);
    reveal_strlit("state");
    reveal_strlit("submitted");
    reveal_strlit("working");
    reveal_strlit("inputRequired");
    reveal_strlit("completed");
    reveal_strlit("cancelled");
    reveal_strlit("failed");
    assert("state"@.len() == 5 && "failed"@.len() == 6 && "working"@.len() == 7);
    assert("submitted"@.len() == 9 && "completed"@.len() == 9 && "cancelled"@.len() == 9);
    assert("inputRequired"@.len() == 13);
}

} // verus!
