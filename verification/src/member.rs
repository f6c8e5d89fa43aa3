use vstd::prelude::*;

verus! {

/// Whether a page opens for reading or for editing.
#[derive(Debug, Clone, Copy, PartialEq, Eq, Structural)]
pub enum PageView {
    Viewing,
    Editing,
}

impl PageView {
    pub fn is_viewing(self) -> (res: bool)
        ensures
            res == (self is Viewing),
    {
        matches!(self, Self::Viewing)
    }

    pub fn is_editing(self) -> (res: bool)
        ensures
            res == (self is Editing),
    {
        matches!(self, Self::Editing)
    }
}

/// Settings a member keeps for the site.
#[derive(Debug, Clone, Copy, PartialEq, Eq, Structural)]
pub struct MemberSettings {
    pub page_view: Option<PageView>,
}

impl MemberSettings {
    /// The chosen page view, viewing when none was chosen.
    pub fn get_page_view_default(&self) -> (res: PageView)
        ensures
            res == match self.page_view {
                Some(v) => v,
                None => PageView::Viewing,
            },
    {
        match self.page_view {
            Some(v) => v,
            None => PageView::Viewing,
        }
    }
}

impl Default for MemberSettings {
    fn default() -> (res: Self)
        ensures
            res.page_view is None,
    {
        MemberSettings { page_view: None }
    }
}

} // verus!
