//! One turn of a conversation, and the packing of a history into the request
//! messages that the LLM client takes.

use vstd::prelude::*;
use async_openai::error::OpenAIError;
use async_openai::types::ChatCompletionRequestMessage;
use crate::openai::{
    assistant_message_of, build_assistant_message, build_system_message, build_tool_message,
    build_user_message, system_message_of, tool_message_of, user_message_of,
};

verus! {

/// Who produced a message.
#[derive(Debug, Clone, Copy, PartialEq, Eq, Structural)]
pub enum MessageRole {
    System,
    User,
    Assistant,
    ToolCall,
}

impl Default for MessageRole {
    fn default() -> (r: Self)
        ensures
            r == MessageRole::User,
    {
        MessageRole::User
    }
}

/// What a message carries: text, or a link to an image or an audio clip.
#[derive(Debug)]
pub enum MessageType {
    Text,
    Image(String),
    Audio(String),
}

impl Clone for MessageType {
    fn clone(&self) -> (r: Self)
        ensures
            r == *self,
    {
        match self {
            MessageType::Text => MessageType::Text,
            MessageType::Image(u) => MessageType::Image(u.clone()),
            MessageType::Audio(u) => MessageType::Audio(u.clone()),
        }
    }
}

impl Default for MessageType {
    fn default() -> (r: Self)
        ensures
            r is Text,
    {
        MessageType::Text
    }
}

/// The request message that one history entry becomes, by its role.
pub open spec fn packed(role: MessageRole, text: Seq<char>) -> ChatCompletionRequestMessage {
    match role {
        MessageRole::System => system_message_of(text),
        MessageRole::User => user_message_of(text),
        MessageRole::Assistant => assistant_message_of(text),
        MessageRole::ToolCall => tool_message_of(text),
    }
}

/// A message of a conversation, as the runtime and the memory store see it.
pub trait Message: Sized {
    spec fn spec_id(&self) -> u128;

    spec fn spec_role(&self) -> MessageRole;

    spec fn spec_owner(&self) -> u128;

    spec fn spec_created_at(&self) -> i64;

    /// The text of the message, where it is a text message.
    spec fn spec_text(&self) -> Option<Seq<char>>;

    /// The link of the message, where it is an image or an audio message.
    spec fn spec_url(&self) -> Option<Seq<char>>;

    /// The bytes of the message, where it carries them inline.
    spec fn spec_binary(&self) -> Option<Seq<u8>>;

    spec fn spec_content_type(&self) -> MessageType;

    fn id(&self) -> (r: u128)
        ensures
            r == self.spec_id(),
    ;

    fn role(&self) -> (r: MessageRole)
        ensures
            r == self.spec_role(),
    ;

    fn owner(&self) -> (r: u128)
        ensures
            r == self.spec_owner(),
    ;

    fn created_at(&self) -> (r: i64)
        ensures
            r == self.spec_created_at(),
    ;

    fn text_content(&self) -> (r: Option<String>)
        ensures
            r is Some <==> self.spec_text() is Some,
            r matches Some(s) ==> self.spec_text() == Some(s@),
    ;

    fn url_content(&self) -> (r: Option<String>)
        ensures
            r is Some <==> self.spec_url() is Some,
            r matches Some(s) ==> self.spec_url() == Some(s@),
    ;

    fn binary_content(&self) -> (r: Option<Vec<u8>>)
        ensures
            r is Some <==> self.spec_binary() is Some,
            r matches Some(b) ==> self.spec_binary() == Some(b@),
    ;

    fn content_type(&self) -> (r: &MessageType)
        ensures
            *r == self.spec_content_type(),
    ;
}

/// The text a message contributes to the packed history: its text content,
/// or nothing.
pub open spec fn text_or_empty<M: Message>(m: M) -> Seq<char> {
    match m.spec_text() {
        Some(t) => t,
        None => Seq::empty(),
    }
}

/// Turns a history into the request messages of the LLM client, one for each
/// entry and in the same order, each by the role of its entry and with its
/// text content (empty where it has none).
pub fn pack<M: Message>(messages: &[M]) -> (r: Result<Vec<ChatCompletionRequestMessage>, OpenAIError>)
    ensures
        r is Ok,
        r matches Ok(v) ==> v@ == messages@.map_values(
            |m: M| packed(m.spec_role(), text_or_empty(m)),
        ),
{
    let mut out: Vec<ChatCompletionRequestMessage> = Vec::new();
    let mut i: usize = 0;
    while i < messages.len()
        invariant
            i <= messages@.len(),
            out@ == messages@.subrange(0, i as int).map_values(
                |m: M| packed(m.spec_role(), text_or_empty(m)),
            ),
        decreases messages@.len() - i,
    {
        let m = &messages[i];
        let text = match m.text_content() {
            Some(t) => t,
            None => String::new(),
        };
        let built = match m.role() {
            MessageRole::System => build_system_message(text),
            MessageRole::User => build_user_message(text),
            MessageRole::Assistant => build_assistant_message(text),
            MessageRole::ToolCall => build_tool_message(text),
        };
        match built {
            Ok(p) => out.push(p),
            Err(e) => return Err(e),
        }
        proof {
            assert(messages@.subrange(0, i + 1) == messages@.subrange(0, i as int).push(messages@[i as int]));
        }
        i = i + 1;
    }
    proof {
        assert(messages@.subrange(0, messages@.len() as int) == messages@);
    }
    Ok(out)
}

/// A stored conversation turn.
#[derive(Debug)]
pub struct HistoryMessage {
    pub id: u128,
    pub role: MessageRole,
    pub content_type: MessageType,
    pub owner: u128,
    pub character_id: u128,
    pub content: String,
    pub created_at: i64,
}

impl Clone for HistoryMessage {
    fn clone(&self) -> (r: Self)
        ensures
            r == *self,
    {
        HistoryMessage {
            id: self.id,
            role: self.role,
            content_type: self.content_type.clone(),
            owner: self.owner,
            character_id: self.character_id,
            content: self.content.clone(),
            created_at: self.created_at,
        }
    }
}

impl Message for HistoryMessage {
    open spec fn spec_id(&self) -> u128 {
        self.id
    }

    open spec fn spec_role(&self) -> MessageRole {
        self.role
    }

    open spec fn spec_owner(&self) -> u128 {
        self.owner
    }

    open spec fn spec_created_at(&self) -> i64 {
        self.created_at
    }

    open spec fn spec_text(&self) -> Option<Seq<char>> {
        match self.content_type {
            MessageType::Text => Some(self.content@),
            _ => None,
        }
    }

    open spec fn spec_url(&self) -> Option<Seq<char>> {
        match self.content_type {
            MessageType::Image(u) => Some(u@),
            MessageType::Audio(u) => Some(u@),
            MessageType::Text => None,
        }
    }

    open spec fn spec_binary(&self) -> Option<Seq<u8>> {
        None
    }

    open spec fn spec_content_type(&self) -> MessageType {
        self.content_type
    }

    fn id(&self) -> (r: u128) {
        self.id
    }

    fn content_type(&self) -> (r: &MessageType) {
        &self.content_type
    }

    fn role(&self) -> (r: MessageRole) {
        self.role
    }

    fn owner(&self) -> (r: u128) {
        self.owner
    }

    fn created_at(&self) -> (r: i64) {
        self.created_at
    }

    fn text_content(&self) -> (r: Option<String>) {
        match &self.content_type {
            MessageType::Text => Some(self.content.clone()),
            _ => None,
        }
    }

    fn url_content(&self) -> (r: Option<String>) {
        match &self.content_type {
            MessageType::Image(u) => Some(u.clone()),
            MessageType::Audio(u) => Some(u.clone()),
            MessageType::Text => None,
        }
    }

    fn binary_content(&self) -> (r: Option<Vec<u8>>) {
        None
    }
}

} // verus!
