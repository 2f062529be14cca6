//! The reply of the language model to a dream request.
//!
//! A reply is a JSON object, often between code fences: an optional list `supersedes` of names, and
//! a list `topics`. The caller decodes the JSON that stands in the text.

use crate::memory::table::views;
use crate::text::{
    copy_optional, optional_text, texts, trim, trim_end_matches, trim_start_matches, trimmed,
    without_leading, without_trailing,
};
use vstd::prelude::*;

verus! {

/// A topic-organized memory entry produced by dream.
#[derive(Debug)]
pub struct DreamTopic {
    pub topic: String,
    /// One-liner for the index.
    pub summary: String,
    /// Full content for retrieval.
    pub content: String,
    /// ISO 8601 timestamp after which this topic expires and is invisible at read time.
    /// Null for durable facts.
    pub expires_at: Option<String>,
}

/// What a dreamed topic holds.
pub struct DreamTopicView {
    pub topic: Seq<char>,
    pub summary: Seq<char>,
    pub content: Seq<char>,
    pub expires_at: Option<Seq<char>>,
}

impl View for DreamTopic {
    type V = DreamTopicView;

    open spec fn view(&self) -> DreamTopicView {
        DreamTopicView {
            topic: self.topic@,
            summary: self.summary@,
            content: self.content@,
            expires_at: optional_text(self.expires_at),
        }
    }
}

impl Clone for DreamTopic {
    fn clone(&self) -> (r: Self)
        ensures
            r@ == self@,
    {
        DreamTopic {
            topic: self.topic.clone(),
            summary: self.summary.clone(),
            content: self.content.clone(),
            expires_at: copy_optional(&self.expires_at),
        }
    }
}

/// What the language model replies: the topics, and the names of the topics that they supersede.
#[derive(Debug)]
pub struct DreamResponse {
    pub supersedes: Vec<String>,
    pub topics: Vec<DreamTopic>,
}

/// What a reply holds.
pub struct ReplyView {
    pub topics: Seq<DreamTopicView>,
    pub superseded: Seq<Seq<char>>,
}

impl View for DreamResponse {
    type V = ReplyView;

    open spec fn view(&self) -> ReplyView {
        ReplyView { topics: views(self.topics@), superseded: texts(self.supersedes@) }
    }
}

/// A text without the code fences and the white space around it.
pub open spec fn unfenced(text: Seq<char>) -> Seq<char> {
    trimmed(
        without_trailing(
            without_leading(without_leading(trimmed(text), "```json"@), "```"@),
            "```"@,
        ),
    )
}

/// What an optional reply holds.
pub open spec fn reply_view(reply: Option<DreamResponse>) -> Option<ReplyView> {
    match reply {
        Some(r) => Some(r@),
        None => None,
    }
}

/// Strip the code fences, if there are any, and the white space from the text of a reply.
pub fn strip_fences(text: &str) -> (r: &str)
    ensures
        r@ == unfenced(text@),
{
    let inner: &str = trim_start_matches(trim_start_matches(trim(text), "```json"), "```");
    trim(trim_end_matches(inner, "```"))
}

} // verus!
