use vstd::prelude::*;

use crate::item::{views_of, ItemView, TodoItem};
use crate::state::{run, State, StoreOp, StoreView};

verus! {

/// Where the rows sit when they do not fill the view. With `Bottom`, rows
/// appended at the end stay in view.
#[derive(Clone, Copy, Debug, PartialEq, Eq, Structural)]
pub enum ListAlignment {
    Top,
    Bottom,
}

/// `Stale` from a change signal until the next rebuild, `Fresh` after it.
#[derive(Clone, Copy, Debug, PartialEq, Eq, Structural)]
pub enum WindowPhase {
    Stale,
    Fresh,
}

/// The window as a mathematical value: its alignment, its phase, and the
/// rows it was last rebuilt from.
pub struct WindowView {
    pub alignment: ListAlignment,
    pub phase: WindowPhase,
    pub rows: Seq<ItemView>,
}

/// The window that a rebuild from the store `v` yields.
pub open spec fn window_of(v: StoreView, alignment: ListAlignment) -> WindowView {
    WindowView { alignment, phase: WindowPhase::Fresh, rows: v.items }
}

/// After any run of mutations, a freshly rebuilt window has exactly as many
/// rows as the store has items, and row `i` is item `i` of the snapshot.
pub proof fn lemma_rebuild_consistent(v: StoreView, ops: Seq<StoreOp>, alignment: ListAlignment)
    ensures
        window_of(run(v, ops), alignment).rows.len() == run(v, ops).items.len(),
        forall|i: int|
            0 <= i < run(v, ops).items.len() ==> #[trigger] window_of(run(v, ops), alignment).rows[i]
                == run(v, ops).items[i],
        window_of(run(v, ops), alignment).phase == WindowPhase::Fresh,
{
}

/// The row window of a list view. It owns its own copy of the items it was
/// last rebuilt from, so a row is always produced from that copy and never
/// from a store that has moved on since.
pub struct TodoList {
    alignment: ListAlignment,
    phase: WindowPhase,
    rows: Vec<TodoItem>,
}

impl View for TodoList {
    type V = WindowView;

    closed spec fn view(&self) -> WindowView {
        WindowView { alignment: self.alignment, phase: self.phase, rows: views_of(self.rows@) }
    }
}

impl TodoList {
    /// A window with no rows, anchored at the bottom.
    pub fn new() -> (r: TodoList)
        ensures
            r@.alignment == ListAlignment::Bottom,
            r@.phase == WindowPhase::Fresh,
            r@.rows.len() == 0,
    {
        let r = TodoList { alignment: ListAlignment::Bottom, phase: WindowPhase::Fresh, rows: Vec::new() };
        assert(r@.rows =~= Seq::<ItemView>::empty());
        r
    }

    pub fn alignment(&self) -> (r: ListAlignment)
        ensures
            r == self@.alignment,
    {
        self.alignment
    }

    pub fn phase(&self) -> (r: WindowPhase)
        ensures
            r == self@.phase,
    {
        self.phase
    }

    /// The number of rows.
    pub fn row_count(&self) -> (r: usize)
        ensures
            r as nat == self@.rows.len(),
    {
        self.rows.len()
    }

    /// Records a change signal: the rows are out of date until the next rebuild.
    pub fn mark_stale(&mut self)
        ensures
            final(self)@ == (WindowView { phase: WindowPhase::Stale, ..old(self)@ }),
    {
        self.phase = WindowPhase::Stale;
    }

    /// Rebuilds the window in full from a fresh snapshot of `store`: as many
    /// rows as items, row `i` being item `i`, and the window fresh again.
    pub fn rebuild(&mut self, store: &State)
        ensures
            final(self)@ == window_of(store@, old(self)@.alignment),
    {
        self.rows = store.snapshot();
        self.phase = WindowPhase::Fresh;
    }

    /// The item shown at row `ix`, produced from the rows of the last rebuild.
    pub fn render_entry(&self, ix: usize) -> (r: TodoItem)
        requires
            ix < self@.rows.len(),
        ensures
            r@ == self@.rows[ix as int],
    {
        self.rows[ix].duplicate()
    }
}

} // verus!
