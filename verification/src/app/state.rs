//! Transient state of the interactive navigator. Nothing here is persisted:
//! it starts afresh every time the navigator is opened.

use vstd::prelude::*;

verus! {

#[derive(Debug)]
pub struct AppState {
    /// Index into `categories::all()` of the open category, if any (`None`
    /// means the top-level category list is showing).
    pub current_category: Option<usize>,
    pub search: String,
    pub quit: bool,
}

impl AppState {
    /// Nothing open, no search, not quitting.
    pub fn new() -> (r: AppState)
        ensures
            r.current_category is None,
            r.search@ == Seq::<char>::empty(),
            !r.quit,
    {
        AppState { current_category: None, search: String::new(), quit: false }
    }

    /// Marks the category at `index` of the navigator as open.
    pub fn open_category(&mut self, index: usize)
        ensures
            final(self).current_category == Some(index),
            final(self).search == old(self).search,
            final(self).quit == old(self).quit,
    {
        self.current_category = Some(index);
    }

    /// Back to the top-level category list.
    pub fn close_category(&mut self)
        ensures
            final(self).current_category is None,
            final(self).search == old(self).search,
            final(self).quit == old(self).quit,
    {
        self.current_category = None;
    }
}

impl Default for AppState {
    fn default() -> (r: AppState)
        ensures
            r.current_category is None,
            r.search@ == Seq::<char>::empty(),
            !r.quit,
    {
        AppState::new()
    }
}

} // verus!
