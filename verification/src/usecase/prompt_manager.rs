//! Managing prompt managers: listing, creating, updating and deleting them.

use crate::common::text::views;
use crate::domain::prompt_manager::{
    ActionType, APIType, PromptManagerModel, PromptManagerModelView,
};
use crate::infra::repository::update::{PromptManagerUpdate, PromptManagerUpdateView};
use vstd::prelude::*;

verus! {

/// A request to create a manager.
#[derive(Debug)]
pub struct CreatePromptManagerRequest {
    pub title: String,
    pub api_type: Option<APIType>,
}

/// The answer to [`CreatePromptManagerRequest`]: the id of the new manager.
#[derive(Clone, Copy, Debug, PartialEq, Eq, Structural)]
pub struct CreatePromptManagerResponse {
    pub id: i32,
}

/// A request to update a manager.
#[derive(Debug)]
pub struct UpdatePromptManagerRequest {
    pub id: i32,
    pub title: String,
    pub action_type: ActionType,
    pub api_type: Option<APIType>,
}

/// The answer to [`UpdatePromptManagerRequest`].
#[derive(Clone, Copy, Debug, PartialEq, Eq, Structural)]
pub struct UpdatePromptManagerResponse {}

/// A request for the list of managers.
#[derive(Clone, Copy, Debug, PartialEq, Eq, Structural)]
pub struct GetPromptManagerRequest {}

/// The answer to [`GetPromptManagerRequest`].
#[derive(Debug)]
pub struct GetPromptManagerResponse {
    pub managers: Vec<PromptManagerItem>,
}

/// A manager as the user interface lists it.
#[derive(Debug)]
pub struct PromptManagerItem {
    pub id: i32,
    pub title: String,
    pub action_type: Option<ActionType>,
    pub tags: Vec<String>,
}

/// The mathematical value of a [`PromptManagerItem`].
pub struct PromptManagerItemView {
    pub id: i32,
    pub title: Seq<char>,
    pub action_type: Option<ActionType>,
    pub tags: Seq<Seq<char>>,
}

impl View for PromptManagerItem {
    type V = PromptManagerItemView;

    open spec fn view(&self) -> PromptManagerItemView {
        PromptManagerItemView {
            id: self.id,
            title: self.title@,
            action_type: self.action_type,
            tags: views(self.tags@),
        }
    }
}

/// A request to delete a manager logically.
#[derive(Clone, Copy, Debug, PartialEq, Eq, Structural)]
pub struct DeletePromptManagerRequest {
    pub id: i32,
}

/// The item for a manager: its id, its title and its action. The list does
/// not show tags: an item's tags are empty.
pub open spec fn item_of() -> spec_fn(PromptManagerModelView) -> PromptManagerItemView {
    |m: PromptManagerModelView|
        PromptManagerItemView {
            id: m.id,
            title: m.title,
            action_type: m.action_type,
            tags: Seq::empty(),
        }
}

impl PromptManagerItem {
    /// The item for a manager.
    pub fn from_model(manager: &PromptManagerModel) -> (item: Self)
        ensures
            item@ == item_of()(manager@),
    {
        let item = PromptManagerItem {
            id: manager.id,
            title: manager.title.clone(),
            action_type: manager.action_type,
            tags: Vec::new(),
        };
        assert(item@.tags =~= Seq::<Seq<char>>::empty());
        item
    }
}

impl GetPromptManagerResponse {
    /// The answer that lists these managers, in their order.
    pub fn from_models(managers: &Vec<PromptManagerModel>) -> (response: Self)
        ensures
            views(response.managers@) == views(managers@).map_values(item_of()),
    {
        let mut items: Vec<PromptManagerItem> = Vec::new();
        let mut i: usize = 0;
        while i < managers.len()
            invariant
                i <= managers.len(),
                items@.len() == i,
                forall|j: int| 0 <= j < i ==> items@[j]@ == item_of()(managers@[j]@),
            decreases managers.len() - i,
        {
            items.push(PromptManagerItem::from_model(&managers[i]));
            i += 1;
        }
        GetPromptManagerResponse { managers: items }
    }
}

impl UpdatePromptManagerRequest {
    /// The new content of the manager that the request asks for: its title,
    /// its action and its API. The request carries no tags, so the manager
    /// is left with none.
    pub fn into_update(self) -> (update: PromptManagerUpdate)
        ensures
            update@ == (PromptManagerUpdateView {
                id: self.id,
                title: self.title@,
                action_type: Some(self.action_type),
                api_type: self.api_type,
                tags: Seq::empty(),
            }),
    {
        let update = PromptManagerUpdate {
            id: self.id,
            title: self.title,
            action_type: Some(self.action_type),
            api_type: self.api_type,
            tags: Vec::new(),
        };
        assert(update@.tags =~= Seq::<Seq<char>>::empty());
        update
    }
}

} // verus!
