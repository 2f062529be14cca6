//! The dream pass.
//!
//! Runs at session end (triggered by inactivity timeout). Takes all structured
//! extractions accumulated during compaction passes, plus the recent message tail,
//! and consolidates them into topic-organized user memory.
//!
//! Context-injection messages (calendar/email summaries) are excluded.
//!
//! ## Conflict resolution
//! The dream prompt includes the full content of existing memory topics so the LLM
//! can detect contradictions. It returns a `supersedes` list of topic names that
//! should be deleted before the new topics are written.
//!
//! ## Expiry
//! Time-sensitive topics (travel plans, temporary preferences) are tagged with an
//! optional `expires_at` ISO timestamp. Durable facts carry `null`.

use crate::dream::response::{
    reply_view, strip_fences, unfenced, DreamResponse, DreamTopic, DreamTopicView, ReplyView,
};
use crate::ids::UserId;
use crate::memory::extractions::{ExtractionView, SessionExtraction};
use crate::memory::table::{others, views};
use crate::memory::user_memory::text_pairs;
use crate::message::{Message, MessageSource, MessageTextView};
use crate::text::{join, joined, optional_text, texts};
use vstd::prelude::*;

verus! {

/// Result of a dream pass.
#[derive(Debug)]
pub struct DreamResult {
    pub topics: Vec<DreamTopic>,
    pub user_id: UserId,
    /// Topic names from existing memory that are superseded by this dream pass
    /// and should be deleted before the new topics are written.
    pub superseded_topics: Vec<String>,
}

/// What the result of a dream pass holds.
pub struct DreamResultView {
    pub topics: Seq<DreamTopicView>,
    pub user_id: UserId,
    pub superseded_topics: Seq<Seq<char>>,
}

impl View for DreamResult {
    type V = DreamResultView;

    open spec fn view(&self) -> DreamResultView {
        DreamResultView {
            topics: views(self.topics@),
            user_id: self.user_id,
            superseded_topics: texts(self.superseded_topics@),
        }
    }
}

impl Clone for DreamResult {
    fn clone(&self) -> (r: Self)
        ensures
            r@ == self@,
    {
        let topics: Vec<DreamTopic> = self.topics.clone();
        let superseded_topics: Vec<String> = self.superseded_topics.clone();
        assert(views(topics@) =~= views(self.topics@));
        assert(texts(superseded_topics@) =~= texts(self.superseded_topics@));
        DreamResult { topics, user_id: self.user_id, superseded_topics }
    }
}

/// The settings of a dream pass.
#[derive(Debug, Clone, Copy)]
pub struct CompactionConfig {
    /// How often the language model is asked at most.
    pub max_retries: u32,
    /// The length of a summary; a dream may be twice as long.
    pub max_summary_tokens: u32,
}

impl Default for CompactionConfig {
    fn default() -> (r: Self)
        ensures
            r.max_retries == 3,
            r.max_summary_tokens == 1024,
    {
        CompactionConfig { max_retries: 3, max_summary_tokens: 1024 }
    }
}

/// What the language model is asked.
#[derive(Debug)]
pub struct CompletionRequest {
    pub model: String,
    /// The text of the one message, which is the user's.
    pub prompt: String,
    pub max_tokens: u32,
    pub system: String,
}

/// What a request holds.
pub struct RequestView {
    pub model: Seq<char>,
    pub prompt: Seq<char>,
    pub max_tokens: u32,
    pub system: Seq<char>,
}

impl View for CompletionRequest {
    type V = RequestView;

    open spec fn view(&self) -> RequestView {
        RequestView {
            model: self.model@,
            prompt: self.prompt@,
            max_tokens: self.max_tokens,
            system: self.system@,
        }
    }
}

impl Clone for CompletionRequest {
    fn clone(&self) -> (r: Self)
        ensures
            r@ == self@,
    {
        CompletionRequest {
            model: self.model.clone(),
            prompt: self.prompt.clone(),
            max_tokens: self.max_tokens,
            system: self.system.clone(),
        }
    }
}

/// Picks the messages that were put in as context.
pub open spec fn injected() -> spec_fn(MessageTextView) -> bool {
    |m: MessageTextView| m.source == Some(MessageSource::ContextInjection)
}

/// The messages of the conversation itself, without those that were put in as context.
pub fn conversation_messages(messages: &[Message]) -> (r: Vec<Message>)
    ensures
        views(r@) == views(messages@).filter(others(injected())),
{
    let ghost all = views(messages@);
    let mut out: Vec<Message> = Vec::new();
    let mut i: usize = 0;
    proof {
        reveal(Seq::filter);
        assert(all.take(0) =~= Seq::empty());
        assert(views(out@) =~= Seq::empty());
    }
    while i < messages.len()
        invariant
            i <= messages.len(),
            all == views(messages@),
            views(out@) == all.take(i as int).filter(others(injected())),
        decreases messages.len() - i,
    {
        proof {
            reveal(Seq::filter);
            assert(all.take(i + 1).drop_last() =~= all.take(i as int));
            assert(all.take(i + 1).last() == messages@[i as int]@);
        }
        let ghost held = out@;
        let skip: bool = match messages[i].source {
            Some(MessageSource::ContextInjection) => true,
            _ => false,
        };
        if !skip {
            out.push(messages[i].clone());
            assert(views(out@) =~= views(held).push(messages@[i as int]@));
        }
        i = i + 1;
    }
    assert(all.take(i as int) =~= all);
    out
}

/// One of the lists of an extraction.
#[derive(Debug, Clone, Copy, PartialEq, Eq, Structural)]
pub enum Insight {
    Facts,
    Preferences,
    Decisions,
    Tasks,
    OpenItems,
}

/// A list of an extraction.
pub open spec fn insight_of(extraction: ExtractionView, kind: Insight) -> Seq<Seq<char>> {
    match kind {
        Insight::Facts => extraction.facts,
        Insight::Preferences => extraction.preferences,
        Insight::Decisions => extraction.decisions,
        Insight::Tasks => extraction.tasks,
        Insight::OpenItems => extraction.open_items,
    }
}

/// The lists of all extractions, one behind the other.
pub open spec fn merged(extractions: Seq<ExtractionView>, kind: Insight) -> Seq<Seq<char>>
    decreases extractions.len(),
{
    if extractions.len() == 0 {
        Seq::empty()
    } else {
        merged(extractions.drop_last(), kind) + insight_of(extractions.last(), kind)
    }
}

/// The lists of all extractions, one behind the other.
fn merge(extractions: &[SessionExtraction], kind: Insight) -> (r: Vec<String>)
    ensures
        texts(r@) == merged(views(extractions@), kind),
{
    let ghost all = views(extractions@);
    let mut out: Vec<String> = Vec::new();
    let mut i: usize = 0;
    assert(all.take(0) =~= Seq::empty());
    assert(texts(out@) =~= Seq::empty());
    while i < extractions.len()
        invariant
            i <= extractions.len(),
            all == views(extractions@),
            texts(out@) == merged(all.take(i as int), kind),
        decreases extractions.len() - i,
    {
        let items: &Vec<String> = match kind {
            Insight::Facts => &extractions[i].facts,
            Insight::Preferences => &extractions[i].preferences,
            Insight::Decisions => &extractions[i].decisions,
            Insight::Tasks => &extractions[i].tasks,
            Insight::OpenItems => &extractions[i].open_items,
        };
        let ghost held = out@;
        let mut copy: Vec<String> = items.clone();
        let ghost copied = copy@;
        out.append(&mut copy);
        proof {
            assert(all.take(i + 1).drop_last() =~= all.take(i as int));
            assert(all.take(i + 1).last() == extractions@[i as int]@);
            assert(texts(copied) =~= texts(items@));
            assert(texts(out@) =~= texts(held) + texts(copied));
        }
        i = i + 1;
    }
    assert(all.take(i as int) =~= all);
    out
}

/// A list as text.
pub open spec fn list_text(items: Seq<Seq<char>>) -> Seq<char> {
    if items.len() == 0 {
        "(none)"@
    } else {
        joined(items, "; "@)
    }
}

/// A list as text.
fn write_list(items: &Vec<String>) -> (r: String)
    ensures
        r@ == list_text(texts(items@)),
{
    if items.len() == 0 {
        "(none)".to_string()
    } else {
        join(items.as_slice(), "; ")
    }
}

/// An existing topic as text.
pub open spec fn existing_line(topic: (Seq<char>, Seq<char>)) -> Seq<char> {
    "  ["@ + topic.0 + "]: "@ + topic.1
}

/// The existing topics as text, one per line.
pub open spec fn existing_text(topics: Seq<(Seq<char>, Seq<char>)>) -> Seq<char> {
    if topics.len() == 0 {
        "(none)"@
    } else {
        joined(topics.map_values(|t: (Seq<char>, Seq<char>)| existing_line(t)), "\n"@)
    }
}

/// The existing topics as text, one per line.
fn write_existing(topics: &[(String, String)]) -> (r: String)
    ensures
        r@ == existing_text(text_pairs(topics@)),
{
    if topics.len() == 0 {
        return "(none)".to_string();
    }
    let mut lines: Vec<String> = Vec::new();
    let mut i: usize = 0;
    while i < topics.len()
        invariant
            i <= topics.len(),
            lines@.len() == i,
            forall|j: int|
                0 <= j < i ==> (#[trigger] lines@[j])@ == existing_line(
                    text_pairs(topics@)[j],
                ),
        decreases topics.len() - i,
    {
        let mut line: String = "  [".to_string();
        line.append(topics[i].0.as_str());
        line.append("]: ");
        line.append(topics[i].1.as_str());
        lines.push(line);
        i = i + 1;
    }
    assert(texts(lines@) =~= text_pairs(topics@).map_values(
        |t: (Seq<char>, Seq<char>)| existing_line(t),
    ));
    join(lines.as_slice(), "\n")
}

/// The prompt of a dream pass.
pub open spec fn dream_prompt(
    extractions: Seq<ExtractionView>,
    recent: Seq<char>,
    existing: Seq<(Seq<char>, Seq<char>)>,
) -> Seq<char> {
    "You are consolidating a conversation into persistent user memory organized by topic.\n\nAccumulated insights from this session:\nFacts: "@
        + list_text(merged(extractions, Insight::Facts)) + "\nPreferences: "@ + list_text(
        merged(extractions, Insight::Preferences),
    ) + "\nDecisions: "@ + list_text(merged(extractions, Insight::Decisions))
        + "\nTasks completed: "@ + list_text(merged(extractions, Insight::Tasks))
        + "\nOpen items: "@ + list_text(merged(extractions, Insight::OpenItems))
        + "\n\nRecent conversation:\n"@ + recent
        + "\n\nExisting memory topics (full content — check for contradictions):\n"@
        + existing_text(existing)
        + "\n\nInstructions:\n1. Produce 3-7 named memory topics that reflect the complete, current state of the user's memory.\n2. If new information contradicts an existing topic, the new information wins. List the old topic name in `supersedes`.\n3. For time-sensitive facts (travel plans, temporary preferences, deadlines), set `expires_at` to an ISO 8601 timestamp (e.g. \"2026-04-10T00:00:00Z\"). For durable facts set `expires_at` to null.\n4. Topic names must be snake_case. Good examples: work_context, preferences, open_items, family_context, upcoming_travel.\n\nReturn ONLY valid JSON:\n{\n\"supersedes\": [\"old_topic_name_if_any\"],\n\"topics\": [\n{\n\"topic\": \"snake_case_name\",\n\"summary\": \"one line description of what this topic contains\",\n\"content\": \"full content for this topic, 2-10 sentences\",\n\"expires_at\": null\n}\n]\n}"@
}

/// The prompt of a dream pass.
fn write_prompt(
    extractions: &[SessionExtraction],
    recent: &str,
    existing: &[(String, String)],
) -> (r: String)
    ensures
        r@ == dream_prompt(views(extractions@), recent@, text_pairs(existing@)),
{
    let mut r: String =
        "You are consolidating a conversation into persistent user memory organized by topic.\n\nAccumulated insights from this session:\nFacts: ".to_string();
    r.append(write_list(&merge(extractions, Insight::Facts)).as_str());
    r.append("\nPreferences: ");
    r.append(write_list(&merge(extractions, Insight::Preferences)).as_str());
    r.append("\nDecisions: ");
    r.append(write_list(&merge(extractions, Insight::Decisions)).as_str());
    r.append("\nTasks completed: ");
    r.append(write_list(&merge(extractions, Insight::Tasks)).as_str());
    r.append("\nOpen items: ");
    r.append(write_list(&merge(extractions, Insight::OpenItems)).as_str());
    r.append("\n\nRecent conversation:\n");
    r.append(recent);
    r.append("\n\nExisting memory topics (full content — check for contradictions):\n");
    r.append(write_existing(existing).as_str());
    r.append(
        "\n\nInstructions:\n1. Produce 3-7 named memory topics that reflect the complete, current state of the user's memory.\n2. If new information contradicts an existing topic, the new information wins. List the old topic name in `supersedes`.\n3. For time-sensitive facts (travel plans, temporary preferences, deadlines), set `expires_at` to an ISO 8601 timestamp (e.g. \"2026-04-10T00:00:00Z\"). For durable facts set `expires_at` to null.\n4. Topic names must be snake_case. Good examples: work_context, preferences, open_items, family_context, upcoming_travel.\n\nReturn ONLY valid JSON:\n{\n\"supersedes\": [\"old_topic_name_if_any\"],\n\"topics\": [\n{\n\"topic\": \"snake_case_name\",\n\"summary\": \"one line description of what this topic contains\",\n\"content\": \"full content for this topic, 2-10 sentences\",\n\"expires_at\": null\n}\n]\n}",
    );
    r
}

/// What the language model is told to be.
pub open spec fn dream_system() -> Seq<char> {
    "You are a memory consolidation assistant. Organize conversation insights into structured topics with conflict resolution and expiry tagging. Return ONLY valid JSON. Do not include any text outside the JSON object."@
}

/// A line of the fallback content: a heading and a list, or nothing for an empty list.
pub open spec fn with_part(
    parts: Seq<Seq<char>>,
    heading: Seq<char>,
    items: Seq<Seq<char>>,
) -> Seq<Seq<char>> {
    if items.len() == 0 {
        parts
    } else {
        parts.push(heading + joined(items, "; "@))
    }
}

/// The lines of the fallback content.
pub open spec fn fallback_parts(
    facts: Seq<Seq<char>>,
    preferences: Seq<Seq<char>>,
    decisions: Seq<Seq<char>>,
    tasks: Seq<Seq<char>>,
    open_items: Seq<Seq<char>>,
) -> Seq<Seq<char>> {
    with_part(
        with_part(
            with_part(
                with_part(
                    with_part(Seq::empty(), "Facts: "@, facts),
                    "Preferences: "@,
                    preferences,
                ),
                "Decisions: "@,
                decisions,
            ),
            "Tasks: "@,
            tasks,
        ),
        "Open items: "@,
        open_items,
    )
}

/// The content of the topic that stands in when no dream comes.
pub open spec fn fallback_content(
    facts: Seq<Seq<char>>,
    preferences: Seq<Seq<char>>,
    decisions: Seq<Seq<char>>,
    tasks: Seq<Seq<char>>,
    open_items: Seq<Seq<char>>,
) -> Seq<char> {
    let parts = fallback_parts(facts, preferences, decisions, tasks, open_items);
    if parts.len() == 0 {
        "No structured information extracted from this session."@
    } else {
        joined(parts, "\n"@)
    }
}

/// Append a line, unless the list is empty.
fn add_part(parts: &mut Vec<String>, heading: &str, items: &[String])
    ensures
        texts(final(parts)@) == with_part(texts(old(parts)@), heading@, texts(items@)),
{
    if items.len() > 0 {
        let mut line: String = heading.to_string();
        line.append(join(items, "; ").as_str());
        let ghost held = parts@;
        parts.push(line);
        assert(texts(parts@) =~= texts(held).push(line@));
    }
}

/// Build a fallback "general" topic content from all extraction lists.
pub fn build_fallback_content(
    facts: &[String],
    preferences: &[String],
    decisions: &[String],
    tasks: &[String],
    open_items: &[String],
) -> (r: String)
    ensures
        r@ == fallback_content(
            texts(facts@),
            texts(preferences@),
            texts(decisions@),
            texts(tasks@),
            texts(open_items@),
        ),
{
    let mut parts: Vec<String> = Vec::new();
    assert(texts(parts@) =~= Seq::empty());
    add_part(&mut parts, "Facts: ", facts);
    add_part(&mut parts, "Preferences: ", preferences);
    add_part(&mut parts, "Decisions: ", decisions);
    add_part(&mut parts, "Tasks: ", tasks);
    add_part(&mut parts, "Open items: ", open_items);
    if parts.len() == 0 {
        "No structured information extracted from this session.".to_string()
    } else {
        join(parts.as_slice(), "\n")
    }
}

/// The result that stands in when no dream comes: one general topic, and nothing superseded.
pub open spec fn fallback(extractions: Seq<ExtractionView>, user: UserId) -> DreamResultView {
    DreamResultView {
        topics: seq![
            DreamTopicView {
                topic: "general"@,
                summary: "General session memory (dream consolidation unavailable)"@,
                content: fallback_content(
                    merged(extractions, Insight::Facts),
                    merged(extractions, Insight::Preferences),
                    merged(extractions, Insight::Decisions),
                    merged(extractions, Insight::Tasks),
                    merged(extractions, Insight::OpenItems),
                ),
                expires_at: None,
            },
        ],
        user_id: user,
        superseded_topics: Seq::empty(),
    }
}

/// The result that stands in when no dream comes.
fn write_fallback(extractions: &[SessionExtraction], user_id: UserId) -> (r: DreamResult)
    ensures
        r@ == fallback(views(extractions@), user_id),
{
    let facts: Vec<String> = merge(extractions, Insight::Facts);
    let preferences: Vec<String> = merge(extractions, Insight::Preferences);
    let decisions: Vec<String> = merge(extractions, Insight::Decisions);
    let tasks: Vec<String> = merge(extractions, Insight::Tasks);
    let open_items: Vec<String> = merge(extractions, Insight::OpenItems);
    let content: String = build_fallback_content(
        facts.as_slice(),
        preferences.as_slice(),
        decisions.as_slice(),
        tasks.as_slice(),
        open_items.as_slice(),
    );
    let topic = DreamTopic {
        topic: "general".to_string(),
        summary: "General session memory (dream consolidation unavailable)".to_string(),
        content,
        expires_at: None,
    };
    let mut topics: Vec<DreamTopic> = Vec::new();
    topics.push(topic);
    let r = DreamResult { topics, user_id, superseded_topics: Vec::new() };
    assert(r@.topics =~= seq![topic@]);
    assert(r@.superseded_topics =~= Seq::empty());
    assert(r@.topics =~= fallback(views(extractions@), user_id).topics);
    r
}

/// What came of one attempt.
pub enum Answer {
    /// The call of the language model failed.
    Failed,
    /// The language model gave a text. `decoded` is the reply that its JSON was decoded to, if it
    /// could be.
    Text { text: Seq<char>, decoded: Option<ReplyView> },
}

/// What an answer says; an empty text says nothing.
pub open spec fn answer_reply(answer: Answer) -> Option<ReplyView> {
    match answer {
        Answer::Text { text, decoded } if text.len() > 0 => decoded,
        _ => None,
    }
}

/// The result of a dream pass that got `answers`: what the first answer says that says
/// something, and the fallback if none does.
pub open spec fn dreamed(
    extractions: Seq<ExtractionView>,
    user: UserId,
    answers: Seq<Answer>,
) -> DreamResultView
    decreases answers.len(),
{
    if answers.len() == 0 {
        fallback(extractions, user)
    } else {
        match answer_reply(answers[0]) {
            Some(reply) => DreamResultView {
                topics: reply.topics,
                user_id: user,
                superseded_topics: reply.superseded,
            },
            None => dreamed(extractions, user, answers.skip(1)),
        }
    }
}

/// What a dream pass does next.
#[derive(Debug)]
pub enum DreamAction {
    /// Ask the language model.
    Ask(CompletionRequest),
    /// Decode the JSON of the reply that came.
    Decode(String),
    /// The pass is over.
    Done(DreamResult),
}

/// A dream pass: consolidate extractions + recent messages into topic memory.
///
/// The language model is asked until an answer can be decoded, at most `max_retries` times. When
/// none can, the extractions go into one general topic.
pub struct DreamPass {
    request: CompletionRequest,
    user_id: UserId,
    fallback: DreamResult,
    attempts: u32,
    max_retries: u32,
    reply: Option<DreamResponse>,
    undecoded: Option<String>,
    extractions: Ghost<Seq<ExtractionView>>,
    answers: Ghost<Seq<Answer>>,
}

impl DreamPass {
    /// The extractions that are consolidated.
    pub closed spec fn extractions(&self) -> Seq<ExtractionView> {
        self.extractions@
    }

    /// Whose memory this is.
    pub closed spec fn user(&self) -> UserId {
        self.user_id
    }

    /// The text that has come and is not decoded yet, if there is one.
    pub closed spec fn pending(&self) -> Option<Seq<char>> {
        optional_text(self.undecoded)
    }

    /// What came of the attempts that are over.
    pub closed spec fn answers(&self) -> Seq<Answer> {
        self.answers@
    }

    /// How often the language model is asked at most.
    pub closed spec fn limit(&self) -> nat {
        self.max_retries as nat
    }

    /// What the language model is asked.
    pub closed spec fn question(&self) -> RequestView {
        self.request@
    }

    /// Whether an answer has come that says something.
    pub open spec fn is_answered(&self) -> bool {
        exists|i: int|
            0 <= i < self.answers().len() && answer_reply(#[trigger] self.answers()[i]) is Some
    }

    /// Whether the pass is over.
    pub open spec fn is_over(&self) -> bool {
        self.is_answered() || self.answers().len() >= self.limit()
    }

    /// What the attempts, the reply and the fallback stand for.
    #[verifier::type_invariant]
    spec fn well_formed(&self) -> bool {
        &&& self.attempts == self.answers@.len()
        &&& self.attempts <= self.max_retries
        &&& self.undecoded is Some ==> self.attempts < self.max_retries && self.reply is None
        &&& self.undecoded matches Some(text) ==> text@.len() > 0
        &&& self.fallback@ == fallback(self.extractions@, self.user_id)
        &&& match reply_view(self.reply) {
            Some(reply) => self.answers@.len() > 0 && answer_reply(self.answers@.last()) == Some(
                reply,
            ),
            None => true,
        }
        &&& forall|i: int|
            0 <= i < self.answers@.len() - (if self.reply is Some {
                1int
            } else {
                0
            }) ==> answer_reply(#[trigger] self.answers@[i]) is None
    }

    /// Begin a pass.
    ///
    /// - `extractions`: all extraction records from compaction during this session
    /// - `recent_conversation`: the text of the recent messages, without injected context
    /// - `user_id`: whose memory this belongs to
    /// - `existing_topics`: full existing user memory `(topic_name, content)` pairs for
    ///   conflict detection. Dream may supersede stale entries.
    pub fn new(
        model: &str,
        extractions: &[SessionExtraction],
        recent_conversation: &str,
        user_id: UserId,
        existing_topics: &[(String, String)],
        config: &CompactionConfig,
    ) -> (r: Self)
        requires
            config.max_summary_tokens * 2 <= u32::MAX,
        ensures
            r.extractions() == views(extractions@),
            r.user() == user_id,
            r.answers() == Seq::<Answer>::empty(),
            r.pending() is None,
            r.limit() == config.max_retries,
            r.question() == (RequestView {
                model: model@,
                prompt: dream_prompt(
                    views(extractions@),
                    recent_conversation@,
                    text_pairs(existing_topics@),
                ),
                max_tokens: (config.max_summary_tokens * 2) as u32,
                system: dream_system(),
            }),
    {
        let request = CompletionRequest {
            model: model.to_string(),
            prompt: write_prompt(extractions, recent_conversation, existing_topics),
            max_tokens: config.max_summary_tokens * 2,
            system: "You are a memory consolidation assistant. Organize conversation insights into structured topics with conflict resolution and expiry tagging. Return ONLY valid JSON. Do not include any text outside the JSON object.".to_string(),
        };
        DreamPass {
            request,
            user_id,
            fallback: write_fallback(extractions, user_id),
            attempts: 0,
            max_retries: config.max_retries,
            reply: None,
            undecoded: None,
            extractions: Ghost(views(extractions@)),
            answers: Ghost(Seq::empty()),
        }
    }

    /// What to do next: ask, and decode what comes, until a reply is decoded or the attempts are
    /// used up.
    pub fn action(&self) -> (r: DreamAction)
        ensures
            match r {
                DreamAction::Ask(request) => !self.is_over() && self.pending() is None && request@
                    == self.question(),
                DreamAction::Decode(json) => !self.is_over() && match self.pending() {
                    Some(text) => text.len() > 0 && json@ == unfenced(text),
                    None => false,
                },
                DreamAction::Done(result) => self.is_over() && self.pending() is None && result@
                    == dreamed(self.extractions(), self.user(), self.answers()),
            },
    {
        proof {
            use_type_invariant(self);
        }
        match &self.reply {
            Some(reply) => {
                let topics: Vec<DreamTopic> = reply.topics.clone();
                let superseded_topics: Vec<String> = reply.supersedes.clone();
                proof {
                    assert(views(topics@) =~= views(reply.topics@));
                    assert(texts(superseded_topics@) =~= texts(reply.supersedes@));
                    let last = self.answers@.len() - 1;
                    assert(answer_reply(self.answers()[last]) is Some);
                    lemma_dreamed_answer(self.extractions(), self.user(), self.answers());
                }
                DreamAction::Done(
                    DreamResult { topics, user_id: self.user_id, superseded_topics },
                )
            },
            None => match &self.undecoded {
                Some(text) => DreamAction::Decode(strip_fences(text.as_str()).to_string()),
                None => if self.attempts < self.max_retries {
                    DreamAction::Ask(self.request.clone())
                } else {
                    proof {
                        lemma_dreamed_nothing(self.extractions(), self.user(), self.answers());
                    }
                    DreamAction::Done(self.fallback.clone())
                },
            },
        }
    }

    /// Take in what came back from the language model: its text, or `None` if the call failed.
    /// A text that is not empty waits to be decoded; anything else ends the attempt.
    pub fn answer(self, text: Option<&str>) -> (r: Self)
        requires
            !self.is_over(),
            self.pending() is None,
        ensures
            r.extractions() == self.extractions(),
            r.user() == self.user(),
            r.limit() == self.limit(),
            r.question() == self.question(),
            match text {
                Some(t) if t@.len() > 0 => r.pending() == Some(t@) && r.answers()
                    == self.answers(),
                Some(t) => r.pending() is None && r.answers() == self.answers().push(
                    Answer::Text { text: t@, decoded: None },
                ),
                None => r.pending() is None && r.answers() == self.answers().push(Answer::Failed),
            },
    {
        proof {
            use_type_invariant(&self);
            if self.reply is Some {
                let last = self.answers@.len() - 1;
                assert(answer_reply(self.answers()[last]) is Some);
            }
        }
        match text {
            Some(t) => if t.is_empty() {
                self.ended(Ghost(Answer::Text { text: t@, decoded: None }), None)
            } else {
                DreamPass {
                    request: self.request,
                    user_id: self.user_id,
                    fallback: self.fallback,
                    attempts: self.attempts,
                    max_retries: self.max_retries,
                    reply: None,
                    undecoded: Some(t.to_string()),
                    extractions: self.extractions,
                    answers: self.answers,
                }
            },
            None => self.ended(Ghost(Answer::Failed), None),
        }
    }

    /// Take in what the JSON was decoded to: the reply, or `None` if it is none. This ends the
    /// attempt.
    pub fn decoded(self, reply: Option<DreamResponse>) -> (r: Self)
        requires
            self.pending() is Some,
        ensures
            r.extractions() == self.extractions(),
            r.user() == self.user(),
            r.limit() == self.limit(),
            r.question() == self.question(),
            r.pending() is None,
            r.answers() == self.answers().push(
                Answer::Text { text: self.pending()->0, decoded: reply_view(reply) },
            ),
    {
        proof {
            use_type_invariant(&self);
        }
        let ghost answer = Answer::Text { text: self.pending()->0, decoded: reply_view(reply) };
        self.ended(Ghost(answer), reply)
    }

    /// End an attempt that came to `answer`, which says what `reply` does.
    fn ended(self, answer: Ghost<Answer>, reply: Option<DreamResponse>) -> (r: Self)
        requires
            self.attempts < self.max_retries,
            self.reply is None,
            answer_reply(answer@) == reply_view(reply),
        ensures
            r.extractions() == self.extractions(),
            r.user() == self.user(),
            r.limit() == self.limit(),
            r.question() == self.question(),
            r.pending() is None,
            r.answers() == self.answers().push(answer@),
    {
        proof {
            use_type_invariant(&self);
        }
        DreamPass {
            request: self.request,
            user_id: self.user_id,
            fallback: self.fallback,
            attempts: self.attempts + 1,
            max_retries: self.max_retries,
            reply,
            undecoded: None,
            extractions: self.extractions,
            answers: Ghost(self.answers@.push(answer@)),
        }
    }
}

/// Answers of which only the last says something.
proof fn lemma_dreamed_answer(
    extractions: Seq<ExtractionView>,
    user: UserId,
    answers: Seq<Answer>,
)
    requires
        answers.len() > 0,
        answer_reply(answers.last()) is Some,
        forall|i: int|
            0 <= i < answers.len() - 1 ==> answer_reply(#[trigger] answers[i]) is None,
    ensures
        dreamed(extractions, user, answers) == (DreamResultView {
            topics: answer_reply(answers.last())->0.topics,
            user_id: user,
            superseded_topics: answer_reply(answers.last())->0.superseded,
        }),
    decreases answers.len(),
{
    if answers.len() > 1 {
        let rest = answers.skip(1);
        assert(rest.last() == answers.last());
        assert forall|i: int| 0 <= i < rest.len() - 1 implies answer_reply(
            #[trigger] rest[i],
        ) is None by {
            assert(rest[i] == answers[i + 1]);
        }
        lemma_dreamed_answer(extractions, user, rest);
    }
}

/// Answers of which none says anything.
proof fn lemma_dreamed_nothing(
    extractions: Seq<ExtractionView>,
    user: UserId,
    answers: Seq<Answer>,
)
    requires
        forall|i: int| 0 <= i < answers.len() ==> answer_reply(#[trigger] answers[i]) is None,
    ensures
        dreamed(extractions, user, answers) == fallback(extractions, user),
    decreases answers.len(),
{
    if answers.len() > 0 {
        let rest = answers.skip(1);
        assert forall|i: int| 0 <= i < rest.len() implies answer_reply(#[trigger] rest[i]) is None by {
            assert(rest[i] == answers[i + 1]);
        }
        lemma_dreamed_nothing(extractions, user, rest);
    }
}

/// Injected context does not reach the dream: whatever is injected, the messages that are
/// consolidated are the same, and none of them was injected.
pub proof fn injections_are_left_out(
    before: Seq<MessageTextView>,
    injection: MessageTextView,
    after: Seq<MessageTextView>,
)
    requires
        injection.source == Some(MessageSource::ContextInjection),
    ensures
        (before.push(injection) + after).filter(others(injected())) == (before + after).filter(
            others(injected()),
        ),
        forall|i: int|
            0 <= i < (before + after).filter(others(injected())).len() ==> (#[trigger] (before
                + after).filter(others(injected()))[i]).source != Some(
                MessageSource::ContextInjection,
            ),
{
    broadcast use vstd::seq_lib::group_filter_ensures;

    let keep = others(injected());
    Seq::filter_distributes_over_add(before.push(injection), after, keep);
    Seq::filter_distributes_over_add(before, after, keep);
    reveal(Seq::filter);
    assert(before.push(injection).drop_last() =~= before);
    let kept = (before + after).filter(keep);
    assert forall|i: int| 0 <= i < kept.len() implies (#[trigger] kept[i]).source != Some(
        MessageSource::ContextInjection,
    ) by {
        assert(keep(kept[i]));
    }
}

/// A dream pass always comes to an end with topics of the user, and the fallback, with one
/// general topic, comes exactly if no answer says anything.
pub proof fn fallback_is_last_resort(
    extractions: Seq<ExtractionView>,
    user: UserId,
    answers: Seq<Answer>,
)
    ensures
        dreamed(extractions, user, answers).user_id == user,
        (forall|i: int| 0 <= i < answers.len() ==> answer_reply(#[trigger] answers[i]) is None)
            ==> dreamed(extractions, user, answers) == fallback(extractions, user),
        forall|i: int|
            #![trigger answers[i]]
            0 <= i < answers.len() && answer_reply(answers[i]) is Some && (forall|j: int|
                0 <= j < i ==> answer_reply(#[trigger] answers[j]) is None) ==> dreamed(
                extractions,
                user,
                answers,
            ) == (DreamResultView {
                topics: answer_reply(answers[i])->0.topics,
                user_id: user,
                superseded_topics: answer_reply(answers[i])->0.superseded,
            }),
    decreases answers.len(),
{
    if forall|i: int| 0 <= i < answers.len() ==> answer_reply(#[trigger] answers[i]) is None {
        lemma_dreamed_nothing(extractions, user, answers);
    }
    if answers.len() > 0 && answer_reply(answers[0]) is None {
        let rest = answers.skip(1);
        fallback_is_last_resort(extractions, user, rest);
        assert forall|i: int|
            #![trigger answers[i]]
            0 <= i < answers.len() && answer_reply(answers[i]) is Some && (forall|j: int|
                0 <= j < i ==> answer_reply(#[trigger] answers[j]) is None) implies dreamed(
            extractions,
            user,
            answers,
        ) == (DreamResultView {
            topics: answer_reply(answers[i])->0.topics,
            user_id: user,
            superseded_topics: answer_reply(answers[i])->0.superseded,
        }) by {
            assert(i > 0);
            assert(rest[i - 1] == answers[i]);
            assert forall|j: int| 0 <= j < i - 1 implies answer_reply(#[trigger] rest[j]) is None by {
                assert(rest[j] == answers[j + 1]);
            }
        }
    }
}

} // verus!
