//! The chat-completion message types of `async_openai`, and the builders that
//! turn one text into one request message of a given role.

use vstd::prelude::*;
use async_openai::error::OpenAIError;
use async_openai::types::{
    ChatCompletionRequestAssistantMessageArgs, ChatCompletionRequestMessage,
    ChatCompletionRequestSystemMessageArgs, ChatCompletionRequestToolMessageArgs,
    ChatCompletionRequestUserMessageArgs,
};

verus! {

#[verifier::external_type_specification]
#[verifier::external_body]
pub struct ExChatCompletionRequestMessage(ChatCompletionRequestMessage);

#[verifier::external_type_specification]
#[verifier::external_body]
pub struct ExOpenAIError(OpenAIError);

/// The system message whose content is the given text.
pub uninterp spec fn system_message_of(text: Seq<char>) -> ChatCompletionRequestMessage;

/// The user message whose content is the given text.
pub uninterp spec fn user_message_of(text: Seq<char>) -> ChatCompletionRequestMessage;

/// The assistant message whose content is the given text.
pub uninterp spec fn assistant_message_of(text: Seq<char>) -> ChatCompletionRequestMessage;

/// The tool message whose content is the given text.
pub uninterp spec fn tool_message_of(text: Seq<char>) -> ChatCompletionRequestMessage;

/// Relies on `ChatCompletionRequestSystemMessageArgs::build`: the builder is
/// declared with a struct-level default, so building never fails, and the
/// result depends on the content alone.
#[verifier::external_body]
pub(crate) fn build_system_message(text: String) -> (r: Result<ChatCompletionRequestMessage, OpenAIError>)
    ensures
        r is Ok,
        r matches Ok(m) ==> m == system_message_of(text@),
{
    ChatCompletionRequestSystemMessageArgs::default()
        .content(text)
        .build()
        .map(ChatCompletionRequestMessage::System)
}

/// Relies on `ChatCompletionRequestUserMessageArgs::build`: the builder is
/// declared with a struct-level default, so building never fails, and the
/// result depends on the content alone.
#[verifier::external_body]
pub(crate) fn build_user_message(text: String) -> (r: Result<ChatCompletionRequestMessage, OpenAIError>)
    ensures
        r is Ok,
        r matches Ok(m) ==> m == user_message_of(text@),
{
    ChatCompletionRequestUserMessageArgs::default()
        .content(text)
        .build()
        .map(ChatCompletionRequestMessage::User)
}

/// Relies on `ChatCompletionRequestAssistantMessageArgs::build`: the builder
/// is declared with a struct-level default, so building never fails, and the
/// result depends on the content alone.
#[verifier::external_body]
pub(crate) fn build_assistant_message(text: String) -> (r: Result<ChatCompletionRequestMessage, OpenAIError>)
    ensures
        r is Ok,
        r matches Ok(m) ==> m == assistant_message_of(text@),
{
    ChatCompletionRequestAssistantMessageArgs::default()
        .content(text)
        .build()
        .map(ChatCompletionRequestMessage::Assistant)
}

/// Relies on `ChatCompletionRequestToolMessageArgs::build`: the builder is
/// declared with a struct-level default, so building never fails, and the
/// result depends on the content alone.
#[verifier::external_body]
pub(crate) fn build_tool_message(text: String) -> (r: Result<ChatCompletionRequestMessage, OpenAIError>)
    ensures
        r is Ok,
        r matches Ok(m) ==> m == tool_message_of(text@),
{
    ChatCompletionRequestToolMessageArgs::default()
        .content(text)
        .build()
        .map(ChatCompletionRequestMessage::Tool)
}

} // verus!
