//! Comparing-prompt settings, their versions, and recorded runs.

use crate::common::errors::{ApplicationError, ApplicationErrorView};
use crate::common::text::{clone_opt_text, opt_text, same_text, views};
use vstd::prelude::*;

verus! {

/// A comparing-prompt setting with the versions that were loaded for it.
#[derive(Debug)]
pub struct ComparingPromptSettingModel {
    pub id: i32,
    pub manager_id: i32,
    pub current_version: i32,
    pub versions: Vec<ComparingPromptSettingVersionModel>,
}

/// The mathematical value of a [`ComparingPromptSettingModel`].
pub struct ComparingPromptSettingModelView {
    pub id: i32,
    pub manager_id: i32,
    pub current_version: i32,
    pub versions: Seq<ComparingPromptSettingVersionModelView>,
}

/// One version of a setting's prompt text.
#[derive(Debug)]
pub struct ComparingPromptSettingVersionModel {
    pub id: i32,
    pub setting_id: i32,
    pub version: i32,
    pub system_prompt: String,
}

/// The mathematical value of a [`ComparingPromptSettingVersionModel`].
pub struct ComparingPromptSettingVersionModelView {
    pub id: i32,
    pub setting_id: i32,
    pub version: i32,
    pub system_prompt: Seq<char>,
}

impl View for ComparingPromptSettingVersionModel {
    type V = ComparingPromptSettingVersionModelView;

    open spec fn view(&self) -> ComparingPromptSettingVersionModelView {
        ComparingPromptSettingVersionModelView {
            id: self.id,
            setting_id: self.setting_id,
            version: self.version,
            system_prompt: self.system_prompt@,
        }
    }
}

impl Clone for ComparingPromptSettingVersionModel {
    fn clone(&self) -> (r: Self)
        ensures
            r == *self,
    {
        ComparingPromptSettingVersionModel {
            id: self.id,
            setting_id: self.setting_id,
            version: self.version,
            system_prompt: self.system_prompt.clone(),
        }
    }
}

impl View for ComparingPromptSettingModel {
    type V = ComparingPromptSettingModelView;

    open spec fn view(&self) -> ComparingPromptSettingModelView {
        ComparingPromptSettingModelView {
            id: self.id,
            manager_id: self.manager_id,
            current_version: self.current_version,
            versions: views(self.versions@),
        }
    }
}

impl Clone for ComparingPromptSettingModel {
    fn clone(&self) -> (r: Self)
        ensures
            r@ == self@,
    {
        let versions = self.versions.clone();
        ComparingPromptSettingModel {
            id: self.id,
            manager_id: self.manager_id,
            current_version: self.current_version,
            versions,
        }
    }
}

/// Who serves a run.
#[derive(Clone, Copy, Debug, PartialEq, Eq, Structural)]
pub enum ProviderType {
    /// OpenAI.
    OpenAI,
    /// Gemini.
    Gemini,
}

impl ProviderType {
    /// The canonical name, which is what storage holds.
    pub open spec fn name(self) -> Seq<char> {
        match self {
            ProviderType::OpenAI => "OpenAI"@,
            ProviderType::Gemini => "Gemini"@,
        }
    }

    /// The variant with the given canonical name, if there is one.
    pub open spec fn parse(s: Seq<char>) -> Option<ProviderType> {
        if s == "OpenAI"@ {
            Some(ProviderType::OpenAI)
        } else if s == "Gemini"@ {
            Some(ProviderType::Gemini)
        } else {
            None
        }
    }

    /// The detail of the error that [`ProviderType::from_str`] gives.
    pub open spec fn parse_failure() -> Seq<char> {
        "failed to convert string to enum ProviderType"@
    }

    /// The canonical name.
    pub fn to_string(&self) -> (r: String)
        ensures
            r@ == self.name(),
    {
        match self {
            ProviderType::OpenAI => "OpenAI".to_string(),
            ProviderType::Gemini => "Gemini".to_string(),
        }
    }

    /// Reads a canonical name. Any other text is a `ParseError`.
    pub fn from_str(s: &str) -> (r: Result<ProviderType, ApplicationError>)
        ensures
            match ProviderType::parse(s@) {
                Some(v) => r == Ok::<ProviderType, ApplicationError>(v),
                None => r is Err && r->Err_0@ == ApplicationErrorView::ParseError(
                    ProviderType::parse_failure(),
                ),
            },
    {
        if same_text(s, "OpenAI") {
            Ok(ProviderType::OpenAI)
        } else if same_text(s, "Gemini") {
            Ok(ProviderType::Gemini)
        } else {
            Err(
                ApplicationError::ParseError(
                    "failed to convert string to enum ProviderType".to_string(),
                ),
            )
        }
    }

    /// Writing a variant's name and reading it back gives the variant.
    pub proof fn lemma_name_round_trip(self)
        ensures
            ProviderType::parse(self.name()) == Some(self),
    {
        reveal_strlit("OpenAI");
        assert("OpenAI"@.len() == 6 && "OpenAI"@[0] == 'O');
        reveal_strlit("Gemini");
    }

    /// A text that reads as a variant is that variant's name.
    pub proof fn lemma_parse_is_name(s: Seq<char>)
        ensures
            ProviderType::parse(s) matches Some(v) ==> v.name() == s,
    {
    }
}

/// The parameters one run was made with.
#[derive(Debug)]
pub struct ComparingPromptSettingRunModel {
    pub id: i32,
    pub manager_id: i32,
    pub user_prompt: String,
    pub provider_type: ProviderType,
    pub model: String,
    /// The sampling temperature, in thousandths.
    pub temperature: i32,
    pub max_tokens: Option<i32>,
    /// Carried by the model and not stored.
    pub response_format: Option<String>,
}

/// The mathematical value of a [`ComparingPromptSettingRunModel`].
pub struct ComparingPromptSettingRunModelView {
    pub id: i32,
    pub manager_id: i32,
    pub user_prompt: Seq<char>,
    pub provider_type: ProviderType,
    pub model: Seq<char>,
    pub temperature: i32,
    pub max_tokens: Option<i32>,
    pub response_format: Option<Seq<char>>,
}

impl View for ComparingPromptSettingRunModel {
    type V = ComparingPromptSettingRunModelView;

    open spec fn view(&self) -> ComparingPromptSettingRunModelView {
        ComparingPromptSettingRunModelView {
            id: self.id,
            manager_id: self.manager_id,
            user_prompt: self.user_prompt@,
            provider_type: self.provider_type,
            model: self.model@,
            temperature: self.temperature,
            max_tokens: self.max_tokens,
            response_format: opt_text(self.response_format),
        }
    }
}

impl Clone for ComparingPromptSettingRunModel {
    fn clone(&self) -> (r: Self)
        ensures
            r == *self,
    {
        ComparingPromptSettingRunModel {
            id: self.id,
            manager_id: self.manager_id,
            user_prompt: self.user_prompt.clone(),
            provider_type: self.provider_type,
            model: self.model.clone(),
            temperature: self.temperature,
            max_tokens: self.max_tokens,
            response_format: clone_opt_text(&self.response_format),
        }
    }
}

} // verus!
