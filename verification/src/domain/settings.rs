//! Stored settings of the application.

use vstd::prelude::*;

verus! {

/// One stored setting.
#[derive(Debug)]
pub struct SettingsModel {
    pub id: i32,
    pub title: String,
    pub api_type: String,
}

/// The mathematical value of a [`SettingsModel`].
pub struct SettingsModelView {
    pub id: i32,
    pub title: Seq<char>,
    pub api_type: Seq<char>,
}

impl View for SettingsModel {
    type V = SettingsModelView;

    open spec fn view(&self) -> SettingsModelView {
        SettingsModelView { id: self.id, title: self.title@, api_type: self.api_type@ }
    }
}

impl Clone for SettingsModel {
    fn clone(&self) -> (r: Self)
        ensures
            r == *self,
    {
        SettingsModel { id: self.id, title: self.title.clone(), api_type: self.api_type.clone() }
    }
}

} // verus!
