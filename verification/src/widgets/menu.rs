//! The menu panel, on its own.

use vstd::prelude::*;

verus! {

/// The menu panel; its border is highlighted when it has the focus.
pub struct MenuSection {
    active: bool,
}

impl MenuSection {
    pub fn new(active: bool) -> (r: MenuSection)
        ensures
            r.is_active() == active,
    {
        MenuSection { active }
    }

    /// Whether the panel has the focus.
    pub closed spec fn is_active(&self) -> bool {
        self.active
    }

    /// Whether to highlight the border.
    pub fn active(&self) -> (r: bool)
        ensures
            r == self.is_active(),
    {
        self.active
    }
}

} // verus!
