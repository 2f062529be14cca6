//! Conversation messages.

use vstd::prelude::*;

verus! {

/// Who a message is from.
#[derive(Debug, Clone, Copy, PartialEq, Eq, Structural)]
pub enum Role {
    System,
    User,
    Assistant,
}

/// How a message came into a conversation.
#[derive(Debug, Clone, Copy, PartialEq, Eq, Structural)]
pub enum MessageSource {
    /// Somebody said it.
    Conversation,
    /// Context from another agent, such as a calendar or email summary, was put in.
    ContextInjection,
}

/// What a message says.
#[derive(Debug)]
pub struct MessageContent {
    text: String,
}

impl View for MessageContent {
    type V = Seq<char>;

    closed spec fn view(&self) -> Seq<char> {
        self.text@
    }
}

impl MessageContent {
    /// Content that is a text.
    pub fn new(text: &str) -> (r: Self)
        ensures
            r@ == text@,
    {
        MessageContent { text: text.to_string() }
    }

    /// The text of the content.
    pub fn text_content(&self) -> (r: String)
        ensures
            r@ == self@,
    {
        self.text.clone()
    }
}

/// A message of a conversation.
#[derive(Debug)]
pub struct Message {
    pub role: Role,
    pub content: MessageContent,
    pub source: Option<MessageSource>,
}

/// What a message holds.
pub struct MessageTextView {
    pub role: Role,
    pub content: Seq<char>,
    pub source: Option<MessageSource>,
}

impl View for Message {
    type V = MessageTextView;

    open spec fn view(&self) -> MessageTextView {
        MessageTextView { role: self.role, content: self.content@, source: self.source }
    }
}

impl Clone for Message {
    fn clone(&self) -> (r: Self)
        ensures
            r@ == self@,
    {
        Message {
            role: self.role,
            content: MessageContent { text: self.content.text.clone() },
            source: self.source,
        }
    }
}

impl Message {
    /// A message of the user.
    pub fn user(text: &str) -> (r: Self)
        ensures
            r@ == (MessageTextView { role: Role::User, content: text@, source: None }),
    {
        Message { role: Role::User, content: MessageContent::new(text), source: None }
    }

    /// A message of the assistant.
    pub fn assistant(text: &str) -> (r: Self)
        ensures
            r@ == (MessageTextView { role: Role::Assistant, content: text@, source: None }),
    {
        Message { role: Role::Assistant, content: MessageContent::new(text), source: None }
    }

    /// Context from another agent, put in as a message of the user.
    pub fn context_injection(text: &str) -> (r: Self)
        ensures
            r@ == (MessageTextView {
                role: Role::User,
                content: text@,
                source: Some(MessageSource::ContextInjection),
            }),
    {
        Message {
            role: Role::User,
            content: MessageContent::new(text),
            source: Some(MessageSource::ContextInjection),
        }
    }
}

/// A message says what its maker was given, whoever it is from: the user and the assistant speak
/// in their own roles, and context that is put in is the only thing that is marked as such.
pub proof fn message_says_what_was_said(
    text: &str,
    by_user: Message,
    by_assistant: Message,
    put_in: Message,
    message: &Message,
    said: String,
)
    requires
        call_ensures(Message::user, (text,), by_user),
        call_ensures(Message::assistant, (text,), by_assistant),
        call_ensures(Message::context_injection, (text,), put_in),
        *message == by_user || *message == by_assistant || *message == put_in,
        call_ensures(MessageContent::text_content, (&message.content,), said),
    ensures
        said@ == text@,
        by_user.role is User,
        by_assistant.role is Assistant,
        put_in.role is User,
        by_user.source is None,
        by_assistant.source is None,
        put_in.source matches Some(source) && source is ContextInjection,
{
    assert(by_user@.content == text@ && by_assistant@.content == text@ && put_in@.content == text@);
    assert(by_user@.source is None && by_assistant@.source is None);
    assert(put_in@.source == Some(MessageSource::ContextInjection));
}

/// A copy of a message has the role, the text and the source of the message.
pub proof fn copied_message_is_the_message(message: &Message, copy: Message)
    requires
        call_ensures(Message::clone, (message,), copy),
    ensures
        copy.role == message.role,
        copy.content@ == message.content@,
        copy.source == message.source,
{
    assert(copy@ == message@);
}

} // verus!
