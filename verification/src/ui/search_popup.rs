use vstd::prelude::*;
use crate::book_edit::BookEdit;
use crate::ids::{BookId, Either, Source};

verus! {

/// Where a search popup looks: outside metadata agents or the library.
#[derive(Debug, Clone, Copy, PartialEq, Eq, Structural)]
pub enum SearchBy {
    External,
    Local,
}

/// What was picked in a search popup.
#[derive(Debug, Clone, PartialEq)]
pub enum SearchSelectedValue {
    Source(Source),
    BookEdit(BookEdit),
    BookId(BookId),
}

impl SearchSelectedValue {
    /// The outside pick: a source to load, or book data already loaded.
    pub fn into_external(self) -> (res: Either<Source, BookEdit>)
        requires
            !(self is BookId),
        ensures
            match self {
                SearchSelectedValue::Source(v) => res == Either::<Source, BookEdit>::Left(v),
                SearchSelectedValue::BookEdit(v) => res == Either::<Source, BookEdit>::Right(v),
                SearchSelectedValue::BookId(_) => false,
            },
    {
        match self {
            Self::Source(v) => Either::Left(v),
            Self::BookEdit(v) => Either::Right(v),
            Self::BookId(_) => vstd::pervasive::unreached(),
        }
    }

    /// The local pick: a book of the library.
    pub fn into_local(self) -> (res: BookId)
        requires
            self is BookId,
        ensures
            self == SearchSelectedValue::BookId(res),
    {
        match self {
            Self::BookId(v) => v,
            _ => vstd::pervasive::unreached(),
        }
    }
}

/// Two loaded outside items to compare, side by side.
pub struct CompareState {
    pub left_edit: Option<(BookEdit, Source)>,
    pub right_edit: Option<(BookEdit, Source)>,
    pub waiting_item_resp: bool,
}

/// What the arrival of a requested item does: `before` becomes `after`. The
/// wait ends; a loaded item fills the left side if it is empty, else the
/// right side; a failed one changes no side.
pub open spec fn item_response_post(
    before: CompareState,
    after: CompareState,
    item: Option<BookEdit>,
    source: Source,
) -> bool {
    &&& !after.waiting_item_resp
    &&& match item {
        None => after.left_edit == before.left_edit && after.right_edit == before.right_edit,
        Some(e) => if before.left_edit is None {
            after.left_edit == Some((e, source)) && after.right_edit == before.right_edit
        } else {
            after.left_edit == before.left_edit && after.right_edit == Some((e, source))
        },
    }
}

/// Two items loaded one after the other into an empty comparison: the first
/// is on the left, the second on the right, and the comparison can be shown.
pub proof fn law_two_items_fill_both_sides(
    s0: CompareState,
    s1: CompareState,
    s2: CompareState,
    first: BookEdit,
    first_source: Source,
    second: BookEdit,
    second_source: Source,
)
    requires
        s0.left_edit is None,
        s0.right_edit is None,
        item_response_post(s0, s1, Some(first), first_source),
        item_response_post(s1, s2, Some(second), second_source),
    ensures
        s2.left_edit == Some((first, first_source)),
        s2.right_edit == Some((second, second_source)),
        s2.left_edit is Some && s2.right_edit is Some,
{
}

/// What picking a source leads to.
#[derive(Debug, Clone, Copy, PartialEq, Eq, Structural)]
pub enum SourcePick {
    /// Hand the source to whoever opened the popup.
    Emit,
    /// Load the item of the source, to compare it.
    Request,
    /// Do nothing: an item is still loading.
    Ignore,
}

impl CompareState {
    /// Nothing loaded, nothing on its way.
    pub fn new() -> (res: Self)
        ensures
            res.left_edit is None && res.right_edit is None && !res.waiting_item_resp,
    {
        CompareState { left_edit: None, right_edit: None, waiting_item_resp: false }
    }

    /// A source was picked. Without comparison it is handed on; with it, its
    /// item is loaded unless another is still on its way.
    pub fn pick_source(&mut self, comparable: bool) -> (res: SourcePick)
        ensures
            !comparable ==> res == SourcePick::Emit && *final(self) == *old(self),
            comparable && old(self).waiting_item_resp ==> res == SourcePick::Ignore && *final(self)
                == *old(self),
            comparable && !old(self).waiting_item_resp ==> res == SourcePick::Request
                && final(self).waiting_item_resp && final(self).left_edit == old(self).left_edit
                && final(self).right_edit == old(self).right_edit,
    {
        if !comparable {
            return SourcePick::Emit;
        }
        if self.waiting_item_resp {
            return SourcePick::Ignore;
        }
        self.waiting_item_resp = true;
        SourcePick::Request
    }

    /// A requested item arrived (or failed to). A loaded item fills the left
    /// side first, then the right side.
    pub fn item_response(&mut self, item: Option<BookEdit>, source: Source)
        ensures
            item_response_post(*old(self), *final(self), item, source),
    {
        if let Some(e) = item {
            if self.left_edit.is_none() {
                self.left_edit = Some((e, source));
            } else {
                self.right_edit = Some((e, source));
            }
        }
        self.waiting_item_resp = false;
    }

    /// Both sides are loaded: the comparison can be shown.
    pub fn ready_to_compare(&self) -> (res: bool)
        ensures
            res == (self.left_edit is Some && self.right_edit is Some),
    {
        self.left_edit.is_some() && self.right_edit.is_some()
    }

    /// The source of the left side, handed on when a single item is chosen.
    pub fn submit_single(&self) -> (res: Option<&Source>)
        ensures
            match self.left_edit {
                Some((_, s)) => res == Some(&s),
                None => res is None,
            },
    {
        match &self.left_edit {
            Some((_, s)) => Some(s),
            None => None,
        }
    }
}

} // verus!
