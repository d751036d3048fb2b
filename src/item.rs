use vstd::prelude::*;

verus! {

/// What an item is, mathematically: its identifier and its title.
pub struct ItemView {
    pub id: nat,
    pub title: Seq<char>,
}

/// One entry of the list: an identifier handed out by the store and a title.
/// Both are fixed once the item exists.
#[derive(Clone, Debug)]
pub struct TodoItem {
    pub id: usize,
    pub title: String,
}

impl View for TodoItem {
    type V = ItemView;

    open spec fn view(&self) -> ItemView {
        ItemView { id: self.id as nat, title: self.title@ }
    }
}

/// The views of a sequence of items, in the same order.
pub open spec fn views_of(items: Seq<TodoItem>) -> Seq<ItemView> {
    items.map_values(|t: TodoItem| t@)
}

impl TodoItem {
    pub fn new(id: usize, title: String) -> (r: TodoItem)
        ensures
            r@ == (ItemView { id: id as nat, title: title@ }),
    {
        TodoItem { id, title }
    }

    /// A copy of this item, equal to it in identifier and title.
    pub fn duplicate(&self) -> (r: TodoItem)
        ensures
            r@ == self@,
    {
        TodoItem { id: self.id, title: self.title.clone() }
    }
}

} // verus!
