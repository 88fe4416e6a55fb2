//! Comparing-prompt settings, under the name of their own module.

pub use crate::domain::comparing_prompt::{
    ComparingPromptSettingModel, ComparingPromptSettingModelView,
    ComparingPromptSettingVersionModel, ComparingPromptSettingVersionModelView,
};
