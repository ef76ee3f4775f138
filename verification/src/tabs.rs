//! Retained state of the tab strip: which tab is selected.
//!
//! The widget around it is host machinery; the state itself is one
//! decision — keep the selection while it is valid, fall back to the
//! first tab when it is not.

use vstd::prelude::*;

verus! {

/// The tab strip's retained state.
#[derive(Debug, Clone)]
pub struct TabsState<TabId> {
    pub selected: Option<TabId>,
}

impl<TabId> TabsState<TabId> {
    /// Fresh state, selecting the given tab (usually the first).
    pub fn new(selected: Option<TabId>) -> (r: TabsState<TabId>)
        ensures
            r.selected == selected,
    {
        TabsState { selected }
    }

    /// Select the given tab.
    pub fn switch_to_tab(&mut self, tab_id: TabId)
        ensures
            final(self).selected == Some(tab_id),
    {
        self.selected = Some(tab_id);
    }

    /// Keep the current selection if the host found it among this
    /// frame's tabs, else fall back to `first`. Returns whether the
    /// selection changed to the fallback.
    pub fn ensure_selection(&mut self, selection_is_valid: bool, first: Option<TabId>) -> (changed:
        bool)
        ensures
            selection_is_valid ==> *final(self) == *old(self) && !changed,
            !selection_is_valid ==> final(self).selected == first && changed == (first is Some),
    {
        if selection_is_valid {
            false
        } else {
            self.selected = first;
            self.selected.is_some()
        }
    }
}

} // verus!
