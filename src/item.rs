use vstd::prelude::*;

verus! {

/// What an item is, as a mathematical value.
pub struct ItemModel {
    pub is_done: bool,
    pub name: Seq<char>,
    pub description: Seq<char>,
}

/// One entry of the todo list.
#[derive(Debug)]
pub struct TodoItem {
    pub is_done: bool,
    pub name: String,
    pub description: String,
}

impl View for TodoItem {
    type V = ItemModel;

    open spec fn view(&self) -> ItemModel {
        ItemModel { is_done: self.is_done, name: self.name@, description: self.description@ }
    }
}

impl TodoItem {
    /// An item with the given fields.
    pub fn new(is_done: bool, name: String, description: String) -> (r: TodoItem)
        ensures
            r@ == (ItemModel { is_done, name: name@, description: description@ }),
    {
        TodoItem { is_done, name, description }
    }

    /// A copy of this item with its completion flag taken from `is_done`.
    pub fn with_done(&self, is_done: bool) -> (r: TodoItem)
        ensures
            r@ == (ItemModel { is_done, ..self@ }),
    {
        TodoItem { is_done, name: self.name.clone(), description: self.description.clone() }
    }
}

/// The mathematical view of a list of items.
pub open spec fn items_view(items: Seq<TodoItem>) -> Seq<ItemModel> {
    items.map_values(|t: TodoItem| t@)
}

} // verus!
