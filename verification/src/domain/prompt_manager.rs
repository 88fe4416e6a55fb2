//! The prompt manager and the enums stored with it.

use crate::common::errors::{ApplicationError, ApplicationErrorView};
use crate::common::text::{clone_texts, same_text, views};
use vstd::prelude::*;

verus! {

/// The API a manager talks to.
#[derive(Clone, Copy, Debug, PartialEq, Eq, Structural)]
pub enum APIType {
    /// The chat API.
    Chat,
    /// The assistant API.
    Assistant,
}

impl APIType {
    /// The canonical name, which is what storage holds.
    pub open spec fn name(self) -> Seq<char> {
        match self {
            APIType::Chat => "Chat"@,
            APIType::Assistant => "Assistant"@,
        }
    }

    /// The variant with the given canonical name, if there is one.
    pub open spec fn parse(s: Seq<char>) -> Option<APIType> {
        if s == "Chat"@ {
            Some(APIType::Chat)
        } else if s == "Assistant"@ {
            Some(APIType::Assistant)
        } else {
            None
        }
    }

    /// The detail of the error that [`APIType::from_str`] gives.
    pub open spec fn parse_failure() -> Seq<char> {
        "failed to convert string to enum APIType"@
    }

    /// The canonical name.
    pub fn to_string(&self) -> (r: String)
        ensures
            r@ == self.name(),
    {
        match self {
            APIType::Chat => "Chat".to_string(),
            APIType::Assistant => "Assistant".to_string(),
        }
    }

    /// Reads a canonical name. Any other text is a `ParseError`.
    pub fn from_str(s: &str) -> (r: Result<APIType, ApplicationError>)
        ensures
            match APIType::parse(s@) {
                Some(v) => r == Ok::<APIType, ApplicationError>(v),
                None => r is Err && r->Err_0@ == ApplicationErrorView::ParseError(
                    APIType::parse_failure(),
                ),
            },
    {
        if same_text(s, "Chat") {
            Ok(APIType::Chat)
        } else if same_text(s, "Assistant") {
            Ok(APIType::Assistant)
        } else {
            Err(
                ApplicationError::ParseError(
                    "failed to convert string to enum APIType".to_string(),
                ),
            )
        }
    }

    /// Writing a variant's name and reading it back gives the variant.
    pub proof fn lemma_name_round_trip(self)
        ensures
            APIType::parse(self.name()) == Some(self),
    {
        reveal_strlit("Chat");
        assert("Chat"@.len() == 4 && "Chat"@[0] == 'C');
        reveal_strlit("Assistant");
    }

    /// A text that reads as a variant is that variant's name.
    pub proof fn lemma_parse_is_name(s: Seq<char>)
        ensures
            APIType::parse(s) matches Some(v) ==> v.name() == s,
    {
    }
}

/// The action a manager has attached.
#[derive(Clone, Copy, Debug, PartialEq, Eq, Structural)]
pub enum ActionType {
    /// Prompts are compared.
    ComparingPrompt,
    /// Models are compared.
    ComparingModel,
}

impl ActionType {
    /// The canonical name, which is what storage holds.
    pub open spec fn name(self) -> Seq<char> {
        match self {
            ActionType::ComparingPrompt => "ComparingPrompt"@,
            ActionType::ComparingModel => "ComparingModel"@,
        }
    }

    /// The variant with the given canonical name, if there is one.
    pub open spec fn parse(s: Seq<char>) -> Option<ActionType> {
        if s == "ComparingPrompt"@ {
            Some(ActionType::ComparingPrompt)
        } else if s == "ComparingModel"@ {
            Some(ActionType::ComparingModel)
        } else {
            None
        }
    }

    /// The detail of the error that [`ActionType::from_str`] gives.
    pub open spec fn parse_failure() -> Seq<char> {
        "failed to convert string to enum ActionType"@
    }

    /// The canonical name.
    pub fn to_string(&self) -> (r: String)
        ensures
            r@ == self.name(),
    {
        match self {
            ActionType::ComparingPrompt => "ComparingPrompt".to_string(),
            ActionType::ComparingModel => "ComparingModel".to_string(),
        }
    }

    /// Reads a canonical name. Any other text is a `ParseError`.
    pub fn from_str(s: &str) -> (r: Result<ActionType, ApplicationError>)
        ensures
            match ActionType::parse(s@) {
                Some(v) => r == Ok::<ActionType, ApplicationError>(v),
                None => r is Err && r->Err_0@ == ApplicationErrorView::ParseError(
                    ActionType::parse_failure(),
                ),
            },
    {
        if same_text(s, "ComparingPrompt") {
            Ok(ActionType::ComparingPrompt)
        } else if same_text(s, "ComparingModel") {
            Ok(ActionType::ComparingModel)
        } else {
            Err(
                ApplicationError::ParseError(
                    "failed to convert string to enum ActionType".to_string(),
                ),
            )
        }
    }

    /// Writing a variant's name and reading it back gives the variant.
    pub proof fn lemma_name_round_trip(self)
        ensures
            ActionType::parse(self.name()) == Some(self),
    {
        reveal_strlit("ComparingPrompt");
        assert("ComparingPrompt"@.len() == 15 && "ComparingPrompt"@[0] == 'C');
        reveal_strlit("ComparingModel");
    }

    /// A text that reads as a variant is that variant's name.
    pub proof fn lemma_parse_is_name(s: Seq<char>)
        ensures
            ActionType::parse(s) matches Some(v) ==> v.name() == s,
    {
    }
}

/// The canonical name of an optional variant.
pub open spec fn action_name(a: Option<ActionType>) -> Option<Seq<char>> {
    match a {
        Some(v) => Some(v.name()),
        None => None,
    }
}

/// The canonical name of an optional variant.
pub open spec fn api_name(a: Option<APIType>) -> Option<Seq<char>> {
    match a {
        Some(v) => Some(v.name()),
        None => None,
    }
}

/// A prompt manager as its users see it: the entry, the action attached to
/// it and the values of its tags.
#[derive(Debug)]
pub struct PromptManagerModel {
    pub id: i32,
    pub title: String,
    pub action_type: Option<ActionType>,
    pub api_type: Option<APIType>,
    pub tags: Vec<String>,
}

/// The mathematical value of a [`PromptManagerModel`].
pub struct PromptManagerModelView {
    pub id: i32,
    pub title: Seq<char>,
    pub action_type: Option<ActionType>,
    pub api_type: Option<APIType>,
    pub tags: Seq<Seq<char>>,
}

impl View for PromptManagerModel {
    type V = PromptManagerModelView;

    open spec fn view(&self) -> PromptManagerModelView {
        PromptManagerModelView {
            id: self.id,
            title: self.title@,
            action_type: self.action_type,
            api_type: self.api_type,
            tags: views(self.tags@),
        }
    }
}

impl Clone for PromptManagerModel {
    fn clone(&self) -> (r: Self)
        ensures
            r@ == self@,
    {
        PromptManagerModel {
            id: self.id,
            title: self.title.clone(),
            action_type: self.action_type,
            api_type: self.api_type,
            tags: clone_texts(&self.tags),
        }
    }
}

} // verus!
