//! The task, message and artifact types of the protocol.

use crate::json::{json_copy, json_model, optional_model, JsonTree};
use crate::text::{copy_optional, optional_text};
use vstd::prelude::*;

verus! {

/// A2A task status.
#[derive(Debug, Clone, Copy, PartialEq, Eq, Structural)]
pub enum A2aTaskStatus {
    /// Task has been received but not started.
    Submitted,
    /// Task is being processed.
    Working,
    /// Agent needs more input from the caller.
    InputRequired,
    /// Task completed successfully.
    Completed,
    /// Task was cancelled.
    Cancelled,
    /// Task failed.
    Failed,
}

impl A2aTaskStatus {
    /// Whether nothing more will happen to a task in this status.
    pub open spec fn finished(self) -> bool {
        self is Completed || self is Failed || self is Cancelled
    }
}

/// A task status in one of its two wire forms.
#[derive(Debug)]
pub enum A2aTaskStatusWrapper {
    /// Object form: `{"state": "completed", "message": ...}`.
    Object { state: A2aTaskStatus, message: Option<serde_json::Value> },
    /// Bare enum form: `"completed"`.
    Enum(A2aTaskStatus),
}

/// What a status wrapper holds.
pub enum StatusView {
    Object { state: A2aTaskStatus, message: Option<JsonTree> },
    Enum(A2aTaskStatus),
}

impl StatusView {
    /// The status, whichever form it has.
    pub open spec fn state(self) -> A2aTaskStatus {
        match self {
            StatusView::Object { state, .. } => state,
            StatusView::Enum(s) => s,
        }
    }
}

impl View for A2aTaskStatusWrapper {
    type V = StatusView;

    open spec fn view(&self) -> StatusView {
        match *self {
            A2aTaskStatusWrapper::Object { state, message } => StatusView::Object {
                state,
                message: optional_model(message),
            },
            A2aTaskStatusWrapper::Enum(s) => StatusView::Enum(s),
        }
    }
}

impl A2aTaskStatusWrapper {
    /// Extract the underlying `A2aTaskStatus` regardless of encoding form.
    pub fn state(&self) -> (r: &A2aTaskStatus)
        ensures
            *r == self@.state(),
    {
        match self {
            A2aTaskStatusWrapper::Object { state, .. } => state,
            A2aTaskStatusWrapper::Enum(s) => s,
        }
    }
}

impl Clone for A2aTaskStatusWrapper {
    fn clone(&self) -> (r: Self)
        ensures
            r@ == self@,
    {
        match self {
            A2aTaskStatusWrapper::Object { state, message } => {
                let message: Option<serde_json::Value> = copy_optional_json(message);
                A2aTaskStatusWrapper::Object { state: *state, message }
            },
            A2aTaskStatusWrapper::Enum(s) => A2aTaskStatusWrapper::Enum(*s),
        }
    }
}

impl From<A2aTaskStatus> for A2aTaskStatusWrapper {
    fn from(status: A2aTaskStatus) -> (r: Self) {
        A2aTaskStatusWrapper::Enum(status)
    }
}

impl vstd::std_specs::convert::FromSpecImpl<A2aTaskStatus> for A2aTaskStatusWrapper {
    open spec fn obeys_from_spec() -> bool {
        true
    }

    open spec fn from_spec(status: A2aTaskStatus) -> Self {
        A2aTaskStatusWrapper::Enum(status)
    }
}

impl PartialEq<A2aTaskStatus> for A2aTaskStatusWrapper {
    fn eq(&self, other: &A2aTaskStatus) -> (r: bool) {
        *self.state() == *other
    }
}

impl vstd::std_specs::cmp::PartialEqSpecImpl<A2aTaskStatus> for A2aTaskStatusWrapper {
    open spec fn obeys_eq_spec() -> bool {
        true
    }

    open spec fn eq_spec(&self, other: &A2aTaskStatus) -> bool {
        self@.state() == *other
    }
}

/// A2A message content part.
#[allow(inconsistent_fields)]
#[derive(Debug)]
pub enum A2aPart {
    /// Text content.
    Text { text: String },
    /// File content (base64-encoded).
    File { name: String, mime_type: String, data: String },
    /// Structured data.
    Data { mime_type: String, data: serde_json::Value },
}

/// What a content part holds.
#[allow(inconsistent_fields)]
pub enum PartView {
    Text { text: Seq<char> },
    File { name: Seq<char>, mime_type: Seq<char>, data: Seq<char> },
    Data { mime_type: Seq<char>, data: JsonTree },
}

impl View for A2aPart {
    type V = PartView;

    open spec fn view(&self) -> PartView {
        match *self {
            A2aPart::Text { text } => PartView::Text { text: text@ },
            A2aPart::File { name, mime_type, data } => PartView::File {
                name: name@,
                mime_type: mime_type@,
                data: data@,
            },
            A2aPart::Data { mime_type, data } => PartView::Data {
                mime_type: mime_type@,
                data: json_model(data),
            },
        }
    }
}

impl Clone for A2aPart {
    fn clone(&self) -> (r: Self)
        ensures
            r@ == self@,
    {
        match self {
            A2aPart::Text { text } => A2aPart::Text { text: text.clone() },
            A2aPart::File { name, mime_type, data } => A2aPart::File {
                name: name.clone(),
                mime_type: mime_type.clone(),
                data: data.clone(),
            },
            A2aPart::Data { mime_type, data } => A2aPart::Data {
                mime_type: mime_type.clone(),
                data: json_copy(data),
            },
        }
    }
}

/// What a list of content parts holds.
pub open spec fn part_views(parts: Seq<A2aPart>) -> Seq<PartView> {
    parts.map_values(|p: A2aPart| p@)
}

/// A2A message in a task conversation.
#[derive(Debug)]
pub struct A2aMessage {
    /// Message role ("user" or "agent").
    pub role: String,
    /// Message content parts.
    pub parts: Vec<A2aPart>,
}

/// What a message holds.
pub struct MessageView {
    pub role: Seq<char>,
    pub parts: Seq<PartView>,
}

impl View for A2aMessage {
    type V = MessageView;

    open spec fn view(&self) -> MessageView {
        MessageView { role: self.role@, parts: part_views(self.parts@) }
    }
}

/// A copy of a list of content parts.
fn copy_parts(parts: &Vec<A2aPart>) -> (r: Vec<A2aPart>)
    ensures
        part_views(r@) == part_views(parts@),
{
    let r: Vec<A2aPart> = parts.clone();
    assert(part_views(r@) =~= part_views(parts@));
    r
}

/// A copy of an optional JSON value.
fn copy_optional_json(value: &Option<serde_json::Value>) -> (r: Option<serde_json::Value>)
    ensures
        optional_model(r) == optional_model(*value),
{
    match value {
        Some(v) => Some(json_copy(v)),
        None => None,
    }
}

impl Clone for A2aMessage {
    fn clone(&self) -> (r: Self)
        ensures
            r@ == self@,
    {
        A2aMessage { role: self.role.clone(), parts: copy_parts(&self.parts) }
    }
}

/// What a list of messages holds.
pub open spec fn message_views(messages: Seq<A2aMessage>) -> Seq<MessageView> {
    messages.map_values(|m: A2aMessage| m@)
}

/// A2A artifact produced by a task.
#[derive(Debug)]
pub struct A2aArtifact {
    /// Artifact name.
    pub name: Option<String>,
    /// Human-readable description.
    pub description: Option<String>,
    /// Arbitrary metadata.
    pub metadata: Option<serde_json::Value>,
    /// Artifact index in the sequence.
    pub index: Option<u32>,
    /// Whether this is the last chunk of a streamed artifact.
    pub last_chunk: Option<bool>,
    /// Artifact content parts.
    pub parts: Vec<A2aPart>,
}

/// What an artifact holds.
pub struct ArtifactView {
    pub name: Option<Seq<char>>,
    pub description: Option<Seq<char>>,
    pub metadata: Option<JsonTree>,
    pub index: Option<u32>,
    pub last_chunk: Option<bool>,
    pub parts: Seq<PartView>,
}

impl View for A2aArtifact {
    type V = ArtifactView;

    open spec fn view(&self) -> ArtifactView {
        ArtifactView {
            name: optional_text(self.name),
            description: optional_text(self.description),
            metadata: optional_model(self.metadata),
            index: self.index,
            last_chunk: self.last_chunk,
            parts: part_views(self.parts@),
        }
    }
}

impl Clone for A2aArtifact {
    fn clone(&self) -> (r: Self)
        ensures
            r@ == self@,
    {
        A2aArtifact {
            name: copy_optional(&self.name),
            description: copy_optional(&self.description),
            metadata: copy_optional_json(&self.metadata),
            index: self.index,
            last_chunk: self.last_chunk,
            parts: copy_parts(&self.parts),
        }
    }
}

/// What a list of artifacts holds.
pub open spec fn artifact_views(artifacts: Seq<A2aArtifact>) -> Seq<ArtifactView> {
    artifacts.map_values(|a: A2aArtifact| a@)
}

/// A2A Task: unit of work exchanged between agents.
#[derive(Debug)]
pub struct A2aTask {
    /// Unique task identifier.
    pub id: String,
    /// Optional session identifier for conversation continuity.
    pub session_id: Option<String>,
    /// Current task status (accepts both string and object forms).
    pub status: A2aTaskStatusWrapper,
    /// Messages exchanged during the task.
    pub messages: Vec<A2aMessage>,
    /// Artifacts produced by the task.
    pub artifacts: Vec<A2aArtifact>,
}

/// What a task holds.
pub struct TaskView {
    pub id: Seq<char>,
    pub session_id: Option<Seq<char>>,
    pub status: StatusView,
    pub messages: Seq<MessageView>,
    pub artifacts: Seq<ArtifactView>,
}

impl View for A2aTask {
    type V = TaskView;

    open spec fn view(&self) -> TaskView {
        TaskView {
            id: self.id@,
            session_id: optional_text(self.session_id),
            status: self.status@,
            messages: message_views(self.messages@),
            artifacts: artifact_views(self.artifacts@),
        }
    }
}

impl Clone for A2aTask {
    fn clone(&self) -> (r: Self)
        ensures
            r@ == self@,
    {
        let messages: Vec<A2aMessage> = self.messages.clone();
        let artifacts: Vec<A2aArtifact> = self.artifacts.clone();
        assert(message_views(messages@) =~= message_views(self.messages@));
        assert(artifact_views(artifacts@) =~= artifact_views(self.artifacts@));
        A2aTask {
            id: self.id.clone(),
            session_id: copy_optional(&self.session_id),
            status: self.status.clone(),
            messages,
            artifacts,
        }
    }
}

/// What an optional task holds.
pub open spec fn optional_task(task: Option<A2aTask>) -> Option<TaskView> {
    match task {
        Some(t) => Some(t@),
        None => None,
    }
}

} // verus!
