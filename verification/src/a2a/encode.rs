//! The JSON form of tasks, messages and artifacts, and how it is written.

use crate::a2a::types::{
    part_views, A2aArtifact, A2aMessage, A2aPart, A2aTask, A2aTaskStatus, A2aTaskStatusWrapper,
    ArtifactView, MessageView, PartView, StatusView, TaskView,
};
use crate::a2a::wire::{
    artifact_of, default_list_of, list_of, message_of, part_of, parts_of, status_named,
    status_of, task_of,
};
use crate::json::{
    entries_map, entry_models, json_copy, json_model, json_models, json_null, json_of_array,
    json_of_bool, json_of_object, json_of_text, json_of_u64, maybe_text_tree, number_tree,
    optional_model, put, write_maybe_text, JsonTree,
};
use crate::record::field;
use vstd::prelude::*;

verus! {

/// The wire name of a status.
pub open spec fn status_name(status: A2aTaskStatus) -> Seq<char> {
    match status {
        A2aTaskStatus::Submitted => "submitted"@,
        A2aTaskStatus::Working => "working"@,
        A2aTaskStatus::InputRequired => "inputRequired"@,
        A2aTaskStatus::Completed => "completed"@,
        A2aTaskStatus::Cancelled => "cancelled"@,
        A2aTaskStatus::Failed => "failed"@,
    }
}

/// An optional tree; `null` stands for none.
pub open spec fn maybe_tree_tree(tree: Option<JsonTree>) -> JsonTree {
    match tree {
        Some(t) => t,
        None => JsonTree::Null,
    }
}

/// A status in the form that it has.
pub open spec fn status_tree(status: StatusView) -> JsonTree {
    match status {
        StatusView::Object { state, message } => JsonTree::Object(
            entries_map(
                seq![
                    ("state"@, JsonTree::Text(status_name(state))),
                    ("message"@, maybe_tree_tree(message)),
                ],
            ),
        ),
        StatusView::Enum(state) => JsonTree::Text(status_name(state)),
    }
}

/// A content part with its tag.
pub open spec fn part_tree(part: PartView) -> JsonTree {
    match part {
        PartView::Text { text } => JsonTree::Object(
            entries_map(
                seq![("type"@, JsonTree::Text("text"@)), ("text"@, JsonTree::Text(text))],
            ),
        ),
        PartView::File { name, mime_type, data } => JsonTree::Object(
            entries_map(
                seq![
                    ("type"@, JsonTree::Text("file"@)),
                    ("name"@, JsonTree::Text(name)),
                    ("mime_type"@, JsonTree::Text(mime_type)),
                    ("data"@, JsonTree::Text(data)),
                ],
            ),
        ),
        PartView::Data { mime_type, data } => JsonTree::Object(
            entries_map(
                seq![
                    ("type"@, JsonTree::Text("data"@)),
                    ("mime_type"@, JsonTree::Text(mime_type)),
                    ("data"@, data),
                ],
            ),
        ),
    }
}

/// A list of content parts.
pub open spec fn parts_tree(parts: Seq<PartView>) -> JsonTree {
    JsonTree::Array(parts.map_values(|p: PartView| part_tree(p)))
}

/// A message.
pub open spec fn message_tree(message: MessageView) -> JsonTree {
    JsonTree::Object(
        entries_map(
            seq![
                ("role"@, JsonTree::Text(message.role)),
                ("parts"@, parts_tree(message.parts)),
            ],
        ),
    )
}

/// An optional number; `null` stands for none.
pub open spec fn maybe_u32_tree(n: Option<u32>) -> JsonTree {
    match n {
        Some(n) => number_tree(n as u64),
        None => JsonTree::Null,
    }
}

/// An optional boolean; `null` stands for none.
pub open spec fn maybe_bool_tree(b: Option<bool>) -> JsonTree {
    match b {
        Some(b) => JsonTree::Bool(b),
        None => JsonTree::Null,
    }
}

/// An artifact.
pub open spec fn artifact_tree(artifact: ArtifactView) -> JsonTree {
    JsonTree::Object(
        entries_map(
            seq![
                ("name"@, maybe_text_tree(artifact.name)),
                ("description"@, maybe_text_tree(artifact.description)),
                ("metadata"@, maybe_tree_tree(artifact.metadata)),
                ("index"@, maybe_u32_tree(artifact.index)),
                ("lastChunk"@, maybe_bool_tree(artifact.last_chunk)),
                ("parts"@, parts_tree(artifact.parts)),
            ],
        ),
    )
}

/// A task.
pub open spec fn task_tree(task: TaskView) -> JsonTree {
    JsonTree::Object(
        entries_map(
            seq![
                ("id"@, JsonTree::Text(task.id)),
                ("sessionId"@, maybe_text_tree(task.session_id)),
                ("status"@, status_tree(task.status)),
                (
                    "messages"@,
                    JsonTree::Array(task.messages.map_values(|m: MessageView| message_tree(m))),
                ),
                (
                    "artifacts"@,
                    JsonTree::Array(task.artifacts.map_values(|a: ArtifactView| artifact_tree(a))),
                ),
            ],
        ),
    )
}

/// The wire name of a status.
fn name_of_status(status: A2aTaskStatus) -> (r: String)
    ensures
        r@ == status_name(status),
{
    match status {
        A2aTaskStatus::Submitted => "submitted".to_string(),
        A2aTaskStatus::Working => "working".to_string(),
        A2aTaskStatus::InputRequired => "inputRequired".to_string(),
        A2aTaskStatus::Completed => "completed".to_string(),
        A2aTaskStatus::Cancelled => "cancelled".to_string(),
        A2aTaskStatus::Failed => "failed".to_string(),
    }
}

/// An optional JSON value.
fn write_maybe_json(value: &Option<serde_json::Value>) -> (r: serde_json::Value)
    ensures
        json_model(r) == maybe_tree_tree(optional_model(*value)),
{
    match value {
        Some(v) => json_copy(v),
        None => json_null(),
    }
}

/// A status in the form that it has.
pub fn write_status(status: &A2aTaskStatusWrapper) -> (r: serde_json::Value)
    ensures
        json_model(r) == status_tree(status@),
{
    match status {
        A2aTaskStatusWrapper::Object { state, message } => {
            let mut entries: Vec<(String, serde_json::Value)> = Vec::new();
            put(&mut entries, "state", json_of_text(name_of_status(*state)));
            put(&mut entries, "message", write_maybe_json(message));
            assert(entry_models(entries@) =~= seq![
                ("state"@, JsonTree::Text(status_name(*state))),
                ("message"@, maybe_tree_tree(optional_model(*message))),
            ]);
            json_of_object(entries)
        },
        A2aTaskStatusWrapper::Enum(state) => json_of_text(name_of_status(*state)),
    }
}

/// A content part with its tag.
fn write_part(part: &A2aPart) -> (r: serde_json::Value)
    ensures
        json_model(r) == part_tree(part@),
{
    let mut entries: Vec<(String, serde_json::Value)> = Vec::new();
    match part {
        A2aPart::Text { text } => {
            put(&mut entries, "type", json_of_text("text".to_string()));
            put(&mut entries, "text", json_of_text(text.clone()));
            assert(entry_models(entries@) =~= seq![
                ("type"@, JsonTree::Text("text"@)),
                ("text"@, JsonTree::Text(text@)),
            ]);
        },
        A2aPart::File { name, mime_type, data } => {
            put(&mut entries, "type", json_of_text("file".to_string()));
            put(&mut entries, "name", json_of_text(name.clone()));
            put(&mut entries, "mime_type", json_of_text(mime_type.clone()));
            put(&mut entries, "data", json_of_text(data.clone()));
            assert(entry_models(entries@) =~= seq![
                ("type"@, JsonTree::Text("file"@)),
                ("name"@, JsonTree::Text(name@)),
                ("mime_type"@, JsonTree::Text(mime_type@)),
                ("data"@, JsonTree::Text(data@)),
            ]);
        },
        A2aPart::Data { mime_type, data } => {
            put(&mut entries, "type", json_of_text("data".to_string()));
            put(&mut entries, "mime_type", json_of_text(mime_type.clone()));
            put(&mut entries, "data", json_copy(data));
            assert(entry_models(entries@) =~= seq![
                ("type"@, JsonTree::Text("data"@)),
                ("mime_type"@, JsonTree::Text(mime_type@)),
                ("data"@, json_model(*data)),
            ]);
        },
    }
    json_of_object(entries)
}

/// A list of content parts.
fn write_parts(parts: &Vec<A2aPart>) -> (r: serde_json::Value)
    ensures
        json_model(r) == parts_tree(part_views(parts@)),
{
    let mut items: Vec<serde_json::Value> = Vec::new();
    let mut i: usize = 0;
    while i < parts.len()
        invariant
            i <= parts.len(),
            items@.len() == i,
            forall|j: int| 0 <= j < i ==> json_model(#[trigger] items@[j]) == part_tree(parts@[j]@),
        decreases parts.len() - i,
    {
        items.push(write_part(&parts[i]));
        i = i + 1;
    }
    assert(json_models(items@) =~= part_views(parts@).map_values(|p: PartView| part_tree(p)));
    json_of_array(items)
}

/// A message.
pub fn write_message(message: &A2aMessage) -> (r: serde_json::Value)
    ensures
        json_model(r) == message_tree(message@),
{
    let mut entries: Vec<(String, serde_json::Value)> = Vec::new();
    put(&mut entries, "role", json_of_text(message.role.clone()));
    put(&mut entries, "parts", write_parts(&message.parts));
    assert(entry_models(entries@) =~= seq![
        ("role"@, JsonTree::Text(message@.role)),
        ("parts"@, parts_tree(message@.parts)),
    ]);
    json_of_object(entries)
}

/// An artifact.
pub fn write_artifact(artifact: &A2aArtifact) -> (r: serde_json::Value)
    ensures
        json_model(r) == artifact_tree(artifact@),
{
    let index: serde_json::Value = match artifact.index {
        Some(n) => json_of_u64(n as u64),
        None => json_null(),
    };
    let last_chunk: serde_json::Value = match artifact.last_chunk {
        Some(b) => json_of_bool(b),
        None => json_null(),
    };
    let mut entries: Vec<(String, serde_json::Value)> = Vec::new();
    put(&mut entries, "name", write_maybe_text(&artifact.name));
    put(&mut entries, "description", write_maybe_text(&artifact.description));
    put(&mut entries, "metadata", write_maybe_json(&artifact.metadata));
    put(&mut entries, "index", index);
    put(&mut entries, "lastChunk", last_chunk);
    put(&mut entries, "parts", write_parts(&artifact.parts));
    assert(entry_models(entries@) =~= seq![
        ("name"@, maybe_text_tree(artifact@.name)),
        ("description"@, maybe_text_tree(artifact@.description)),
        ("metadata"@, maybe_tree_tree(artifact@.metadata)),
        ("index"@, maybe_u32_tree(artifact@.index)),
        ("lastChunk"@, maybe_bool_tree(artifact@.last_chunk)),
        ("parts"@, parts_tree(artifact@.parts)),
    ]);
    json_of_object(entries)
}

/// A task.
pub fn write_task(task: &A2aTask) -> (r: serde_json::Value)
    ensures
        json_model(r) == task_tree(task@),
{
    let mut messages: Vec<serde_json::Value> = Vec::new();
    let mut i: usize = 0;
    while i < task.messages.len()
        invariant
            i <= task.messages.len(),
            messages@.len() == i,
            forall|j: int|
                0 <= j < i ==> json_model(#[trigger] messages@[j]) == message_tree(
                    task.messages@[j]@,
                ),
        decreases task.messages.len() - i,
    {
        messages.push(write_message(&task.messages[i]));
        i = i + 1;
    }
    let mut artifacts: Vec<serde_json::Value> = Vec::new();
    let mut k: usize = 0;
    while k < task.artifacts.len()
        invariant
            k <= task.artifacts.len(),
            artifacts@.len() == k,
            forall|j: int|
                0 <= j < k ==> json_model(#[trigger] artifacts@[j]) == artifact_tree(
                    task.artifacts@[j]@,
                ),
        decreases task.artifacts.len() - k,
    {
        artifacts.push(write_artifact(&task.artifacts[k]));
        k = k + 1;
    }
    let ghost message_trees = task@.messages.map_values(|m: MessageView| message_tree(m));
    let ghost artifact_trees = task@.artifacts.map_values(|a: ArtifactView| artifact_tree(a));
    assert(json_models(messages@) =~= message_trees);
    assert(json_models(artifacts@) =~= artifact_trees);
    let mut entries: Vec<(String, serde_json::Value)> = Vec::new();
    put(&mut entries, "id", json_of_text(task.id.clone()));
    put(&mut entries, "sessionId", write_maybe_text(&task.session_id));
    put(&mut entries, "status", write_status(&task.status));
    put(&mut entries, "messages", json_of_array(messages));
    put(&mut entries, "artifacts", json_of_array(artifacts));
    assert(entry_models(entries@) =~= seq![
        ("id"@, JsonTree::Text(task@.id)),
        ("sessionId"@, maybe_text_tree(task@.session_id)),
        ("status"@, status_tree(task@.status)),
        ("messages"@, JsonTree::Array(message_trees)),
        ("artifacts"@, JsonTree::Array(artifact_trees)),
    ]);
    json_of_object(entries)
}

/// Whether a part, message, artifact or task holds no optional JSON value that is `null`: such a
/// value is written like an absent one.
pub open spec fn distinct_null(tree: Option<JsonTree>) -> bool {
    tree != Some(JsonTree::Null)
}

/// `distinct_null` for the message of a status.
pub open spec fn plain_status(status: StatusView) -> bool {
    match status {
        StatusView::Object { message, .. } => distinct_null(message),
        StatusView::Enum(_) => true,
    }
}

/// `distinct_null` for every optional JSON value in a task.
pub open spec fn plain_task(task: TaskView) -> bool {
    &&& plain_status(task.status)
    &&& forall|i: int|
        0 <= i < task.artifacts.len() ==> distinct_null((#[trigger] task.artifacts[i]).metadata)
}

/// A status name is read as the status that it names.
pub proof fn status_name_reads_back(status: A2aTaskStatus)
    ensures
        status_named(status_name(status)) == Some(status),
{
    reveal_strlit("submitted");
    reveal_strlit("working");
    reveal_strlit("inputRequired");
    reveal_strlit("completed");
    reveal_strlit("cancelled");
    reveal_strlit("failed");
    assert("submitted"@[0] == 's');
    assert("working"@[0] == 'w');
    assert("inputRequired"@[0] == 'i');
    assert("completed"@[1] == 'o');
    assert("cancelled"@[1] == 'a');
    assert("completed"@[0] == 'c');
    assert("cancelled"@[0] == 'c');
    assert("failed"@[0] == 'f');
}

/// Reading a written status gives the status, in the same form.
pub proof fn status_reads_back(status: StatusView)
    requires
        plain_status(status),
    ensures
        status_of(status_tree(status)) == Some(status),
{
    reveal_strlit("state");
    reveal_strlit("message");
    assert("state"@[0] == 's');
    assert("message"@[0] == 'm');
    reveal_with_fuel(entries_map, 3);
    match status {
        StatusView::Object { state, message } => {
            status_name_reads_back(state);
            let entries = seq![
                ("state"@, JsonTree::Text(status_name(state))),
                ("message"@, maybe_tree_tree(message)),
            ];
            assert(entries.drop_last() =~= seq![entries[0]]);
            assert(entries.drop_last().drop_last() =~= Seq::empty());
        },
        StatusView::Enum(state) => {
            status_name_reads_back(state);
        },
    }
}

/// Reading a written content part gives the part.
pub proof fn part_reads_back(part: PartView)
    ensures
        part_of(part_tree(part)) == Some(part),
{
    reveal_strlit("type");
    reveal_strlit("text");
    reveal_strlit("file");
    reveal_strlit("data");
    reveal_strlit("name");
    reveal_strlit("mime_type");
    assert("type"@[1] == 'y');
    assert("text"@[1] == 'e');
    assert("type"@[0] == 't');
    assert("text"@[0] == 't');
    assert("file"@[0] == 'f');
    assert("data"@[0] == 'd');
    assert("name"@[0] == 'n');
    reveal_with_fuel(entries_map, 5);
    match part {
        PartView::Text { text } => {
            let entries = seq![("type"@, JsonTree::Text("text"@)), ("text"@, JsonTree::Text(text))];
            assert(entries.drop_last() =~= seq![entries[0]]);
            assert(entries.drop_last().drop_last() =~= Seq::empty());
        },
        PartView::File { name, mime_type, data } => {
            let entries = seq![
                ("type"@, JsonTree::Text("file"@)),
                ("name"@, JsonTree::Text(name)),
                ("mime_type"@, JsonTree::Text(mime_type)),
                ("data"@, JsonTree::Text(data)),
            ];
            assert(entries.drop_last() =~= seq![entries[0], entries[1], entries[2]]);
            assert(entries.drop_last().drop_last() =~= seq![entries[0], entries[1]]);
            assert(entries.drop_last().drop_last().drop_last() =~= seq![entries[0]]);
            assert(entries.drop_last().drop_last().drop_last().drop_last() =~= Seq::empty());
        },
        PartView::Data { mime_type, data } => {
            let entries = seq![
                ("type"@, JsonTree::Text("data"@)),
                ("mime_type"@, JsonTree::Text(mime_type)),
                ("data"@, data),
            ];
            assert(entries.drop_last() =~= seq![entries[0], entries[1]]);
            assert(entries.drop_last().drop_last() =~= seq![entries[0]]);
            assert(entries.drop_last().drop_last().drop_last() =~= Seq::empty());
        },
    }
}

/// Reading a written list of content parts gives the parts.
proof fn lemma_parts_read_back(parts: Seq<PartView>)
    ensures
        parts_of(Some(parts_tree(parts))) == Some(parts),
{
    let trees = parts.map_values(|p: PartView| part_tree(p));
    let read = |p: JsonTree| part_of(p);
    assert forall|i: int| 0 <= i < parts.len() implies #[trigger] read(trees[i]) == Some(
        parts[i],
    ) by {
        part_reads_back(parts[i]);
    }
    assert(list_of(JsonTree::Array(trees), read).unwrap() =~= parts);
    assert(parts_of(Some(parts_tree(parts))) == list_of(JsonTree::Array(trees), read));
}

/// Reading a written message gives the message.
pub proof fn message_reads_back(message: MessageView)
    ensures
        message_of(message_tree(message)) == Some(message),
{
    reveal_strlit("role");
    reveal_strlit("parts");
    assert("role"@[0] == 'r');
    assert("parts"@[0] == 'p');
    reveal_with_fuel(entries_map, 3);
    let entries = seq![
        ("role"@, JsonTree::Text(message.role)),
        ("parts"@, parts_tree(message.parts)),
    ];
    assert(entries.drop_last() =~= seq![entries[0]]);
    assert(entries.drop_last().drop_last() =~= Seq::empty());
    lemma_parts_read_back(message.parts);
}

/// Reading a written artifact gives the artifact.
pub proof fn artifact_reads_back(artifact: ArtifactView)
    requires
        distinct_null(artifact.metadata),
    ensures
        artifact_of(artifact_tree(artifact)) == Some(artifact),
{
    reveal_strlit("name");
    reveal_strlit("description");
    reveal_strlit("metadata");
    reveal_strlit("index");
    reveal_strlit("lastChunk");
    reveal_strlit("parts");
    assert("name"@[0] == 'n');
    assert("description"@[0] == 'd');
    assert("metadata"@[0] == 'm');
    assert("index"@[0] == 'i');
    assert("lastChunk"@[0] == 'l');
    assert("parts"@[0] == 'p');
    reveal_with_fuel(entries_map, 7);
    let e = seq![
        ("name"@, maybe_text_tree(artifact.name)),
        ("description"@, maybe_text_tree(artifact.description)),
        ("metadata"@, maybe_tree_tree(artifact.metadata)),
        ("index"@, maybe_u32_tree(artifact.index)),
        ("lastChunk"@, maybe_bool_tree(artifact.last_chunk)),
        ("parts"@, parts_tree(artifact.parts)),
    ];
    assert(e.drop_last() =~= seq![e[0], e[1], e[2], e[3], e[4]]);
    assert(e.drop_last().drop_last() =~= seq![e[0], e[1], e[2], e[3]]);
    assert(e.drop_last().drop_last().drop_last() =~= seq![e[0], e[1], e[2]]);
    assert(e.drop_last().drop_last().drop_last().drop_last() =~= seq![e[0], e[1]]);
    assert(e.drop_last().drop_last().drop_last().drop_last().drop_last() =~= seq![e[0]]);
    assert(e.drop_last().drop_last().drop_last().drop_last().drop_last().drop_last()
        =~= Seq::empty());
    lemma_parts_read_back(artifact.parts);
}

/// Reading a written task gives the task, whatever it holds, unless an optional JSON value in it
/// is `null`.
pub proof fn task_reads_back(task: TaskView)
    requires
        plain_task(task),
    ensures
        task_of(task_tree(task)) == Some(task),
{
    reveal_strlit("id");
    reveal_strlit("sessionId");
    reveal_strlit("status");
    reveal_strlit("messages");
    reveal_strlit("artifacts");
    assert("id"@[0] == 'i');
    assert("sessionId"@[1] == 'e');
    assert("status"@[1] == 't');
    assert("sessionId"@[0] == 's');
    assert("status"@[0] == 's');
    assert("messages"@[0] == 'm');
    assert("artifacts"@[0] == 'a');
    reveal_with_fuel(entries_map, 6);
    let message_trees = task.messages.map_values(|m: MessageView| message_tree(m));
    let artifact_trees = task.artifacts.map_values(|a: ArtifactView| artifact_tree(a));
    let e = seq![
        ("id"@, JsonTree::Text(task.id)),
        ("sessionId"@, maybe_text_tree(task.session_id)),
        ("status"@, status_tree(task.status)),
        ("messages"@, JsonTree::Array(message_trees)),
        ("artifacts"@, JsonTree::Array(artifact_trees)),
    ];
    assert(e.drop_last() =~= seq![e[0], e[1], e[2], e[3]]);
    assert(e.drop_last().drop_last() =~= seq![e[0], e[1], e[2]]);
    assert(e.drop_last().drop_last().drop_last() =~= seq![e[0], e[1]]);
    assert(e.drop_last().drop_last().drop_last().drop_last() =~= seq![e[0]]);
    assert(e.drop_last().drop_last().drop_last().drop_last().drop_last() =~= Seq::empty());
    status_reads_back(task.status);
    let read_message = |m: JsonTree| message_of(m);
    assert forall|i: int| 0 <= i < task.messages.len() implies #[trigger] read_message(
        message_trees[i],
    ) == Some(task.messages[i]) by {
        message_reads_back(task.messages[i]);
    }
    assert(list_of(JsonTree::Array(message_trees), read_message).unwrap() =~= task.messages);
    let read_artifact = |a: JsonTree| artifact_of(a);
    assert forall|i: int| 0 <= i < task.artifacts.len() implies #[trigger] read_artifact(
        artifact_trees[i],
    ) == Some(task.artifacts[i]) by {
        artifact_reads_back(task.artifacts[i]);
    }
    assert(list_of(JsonTree::Array(artifact_trees), read_artifact).unwrap() =~= task.artifacts);
    let tree = task_tree(task);
    assert(field(tree, "messages"@, 3) == Some(JsonTree::Array(message_trees)));
    assert(field(tree, "artifacts"@, 4) == Some(JsonTree::Array(artifact_trees)));
    assert(default_list_of(field(tree, "messages"@, 3), read_message) == Some(task.messages));
    assert(default_list_of(field(tree, "artifacts"@, 4), read_artifact) == Some(task.artifacts));
}

} // verus!
