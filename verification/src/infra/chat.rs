//! The chat: what is sent to the chat service and what is made of its
//! answer. The call itself is made by whoever holds the client.

use crate::common::errors::{ApplicationError, ApplicationErrorView};
use crate::common::text::{opt_text, views};
use crate::domain::chat::{ChatSettings, ChatSettingsView};
use vstd::prelude::*;

verus! {

/// Who speaks in a message.
#[derive(Clone, Copy, Debug, PartialEq, Eq, Structural)]
pub enum ChatRole {
    System,
    User,
}

/// One message of a chat.
#[derive(Debug)]
pub struct ChatMessage {
    pub role: ChatRole,
    pub content: String,
}

/// The mathematical value of a [`ChatMessage`].
pub struct ChatMessageView {
    pub role: ChatRole,
    pub content: Seq<char>,
}

impl View for ChatMessage {
    type V = ChatMessageView;

    open spec fn view(&self) -> ChatMessageView {
        ChatMessageView { role: self.role, content: self.content@ }
    }
}

/// The messages of a chat: the system prompt first, the user prompt after
/// it.
pub open spec fn messages_of(settings: ChatSettingsView) -> Seq<ChatMessageView> {
    seq![
        ChatMessageView { role: ChatRole::System, content: settings.system_prompt },
        ChatMessageView { role: ChatRole::User, content: settings.user_prompt },
    ]
}

/// The messages to send for these settings.
pub fn build_messages(settings: ChatSettings) -> (messages: Vec<ChatMessage>)
    ensures
        views(messages@) == messages_of(settings@),
{
    let mut messages: Vec<ChatMessage> = Vec::new();
    messages.push(ChatMessage { role: ChatRole::System, content: settings.system_prompt });
    messages.push(ChatMessage { role: ChatRole::User, content: settings.user_prompt });
    messages
}

/// The answer among the contents of the choices that the service gave: the
/// content of the first choice. No choice, or a first choice without
/// content, is an `EmptyResult`.
pub open spec fn answer_of(choices: Seq<Option<Seq<char>>>) -> Result<
    Seq<char>,
    ApplicationErrorView,
> {
    if choices.len() > 0 && choices[0] is Some {
        Ok(choices[0]->Some_0)
    } else {
        Err(ApplicationErrorView::EmptyResult)
    }
}

/// The contents of the choices, as texts.
pub open spec fn contents(choices: Seq<Option<String>>) -> Seq<Option<Seq<char>>> {
    choices.map_values(|c: Option<String>| opt_text(c))
}

/// Picks the answer from the contents of the choices that the service gave.
pub fn first_answer(choices: Vec<Option<String>>) -> (r: Result<String, ApplicationError>)
    ensures
        match answer_of(contents(choices@)) {
            Ok(text) => r is Ok && r->Ok_0@ == text,
            Err(e) => r is Err && r->Err_0@ == e,
        },
{
    if choices.len() == 0 {
        return Err(ApplicationError::EmptyResult);
    }
    match &choices[0] {
        Some(content) => Ok(content.clone()),
        None => Err(ApplicationError::EmptyResult),
    }
}

/// The error for a failure of the chat service, which keeps the service's
/// own words.
pub fn chat_failure(detail: String) -> (e: ApplicationError)
    ensures
        e@ == ApplicationErrorView::OpenAPIError(detail@),
{
    ApplicationError::OpenAPIError(detail)
}

} // verus!
