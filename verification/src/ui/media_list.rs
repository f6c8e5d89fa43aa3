use vstd::prelude::*;
use crate::book_edit::{find_first, lemma_find_first, lemma_find_first_contains, push_new};
use crate::ids::BookId;
use crate::text::{chars_of, lowercase, string_from_chars, to_lowercase, trim, trim_chars};

verus! {

/// A list page that loads its items a batch at a time as the reader scrolls.
pub struct MediaListState<T> {
    pub media_items: Option<Vec<T>>,
    pub total_media_count: usize,
    pub is_fetching_media_items: bool,
}

/// How many items are loaded.
pub open spec fn loaded_count<T>(items: Option<Vec<T>>) -> nat {
    match items {
        Some(v) => v@.len(),
        None => 0,
    }
}

/// More items can be asked for: some are loaded, and not all of them.
pub open spec fn more_available<T>(s: MediaListState<T>) -> bool {
    loaded_count(s.media_items) != 0 && loaded_count(s.media_items) != s.total_media_count
}

/// The items after a batch arrives: appended to those loaded, or the first
/// batch.
pub open spec fn items_after<T>(items: Option<Vec<T>>, batch: Seq<T>) -> Seq<T> {
    match items {
        Some(v) => v@ + batch,
        None => batch,
    }
}

/// The scroll distance below which the next batch is asked for.
pub open spec fn scroll_margin() -> int {
    600
}

impl<T> MediaListState<T> {
    /// Nothing loaded, nothing asked for.
    pub fn new() -> (res: Self)
        ensures
            res.media_items is None,
            res.total_media_count == 0,
            !res.is_fetching_media_items,
    {
        MediaListState { media_items: None, total_media_count: 0, is_fetching_media_items: false }
    }

    /// Whether more items can be asked for.
    pub fn can_req_more(&self) -> (res: bool)
        ensures
            res == more_available(*self),
    {
        let count = match &self.media_items {
            Some(v) => v.len(),
            None => 0,
        };
        count != 0 && count != self.total_media_count
    }

    /// Asks for the next batch. While a batch is on its way nothing is asked
    /// (`None`); otherwise the page marks itself as fetching and gives the
    /// offset to ask from: the number loaded, left out when 0.
    pub fn request_media_items(&mut self) -> (res: Option<Option<usize>>)
        ensures
            request_post(*old(self), *final(self), res),
    {
        if self.is_fetching_media_items {
            return None;
        }
        self.is_fetching_media_items = true;
        let count = match &self.media_items {
            Some(v) => v.len(),
            None => 0,
        };
        Some(if count == 0 { None } else { Some(count) })
    }

    /// Takes in a batch of items and the total the server reports.
    pub fn receive_media_items(&mut self, items: Vec<T>, count: usize)
        ensures
            !final(self).is_fetching_media_items,
            final(self).total_media_count == count,
            final(self).media_items matches Some(v) && v@ == items_after(old(self).media_items, items@),
    {
        self.is_fetching_media_items = false;
        self.total_media_count = count;
        match self.media_items.take() {
            Some(mut v) => {
                let mut items = items;
                v.append(&mut items);
                self.media_items = Some(v);
            },
            None => {
                self.media_items = Some(items);
            },
        }
    }

    /// A request for a batch failed: the page stops waiting and keeps what it
    /// had, so that scrolling can ask again.
    pub fn receive_failure(&mut self)
        ensures
            *final(self) == (MediaListState { is_fetching_media_items: false, ..*old(self) }),
    {
        self.is_fetching_media_items = false;
    }

    /// Whether scrolling to `scroll_y` of a list `scroll_height` high asks for
    /// the next batch: less than 600 left below and more available.
    pub fn on_scroll(&self, scroll_height: i32, scroll_y: i32) -> (res: bool)
        requires
            i32::MIN <= scroll_height - scroll_y <= i32::MAX,
        ensures
            res == (scroll_height - scroll_y < scroll_margin() && more_available(*self)),
    {
        scroll_height - scroll_y < 600 && self.can_req_more()
    }
}

/// What asking for the next batch does: `before` becomes `after` and `res`
/// is what was asked (see `request_media_items`).
pub open spec fn request_post<T>(
    before: MediaListState<T>,
    after: MediaListState<T>,
    res: Option<Option<usize>>,
) -> bool {
    if before.is_fetching_media_items {
        res is None && after == before
    } else {
        &&& after.is_fetching_media_items
        &&& after.media_items == before.media_items
        &&& after.total_media_count == before.total_media_count
        &&& res == Some(
            if loaded_count(before.media_items) == 0 {
                None::<usize>
            } else {
                Some(loaded_count(before.media_items) as usize)
            },
        )
    }
}

/// Loading never runs two requests at once: of two requests in a row with no
/// batch arriving between them, the second asks nothing and changes nothing.
pub proof fn law_one_request_at_a_time<T>(
    s0: MediaListState<T>,
    s1: MediaListState<T>,
    s2: MediaListState<T>,
    r1: Option<Option<usize>>,
    r2: Option<Option<usize>>,
)
    requires
        request_post(s0, s1, r1),
        request_post(s1, s2, r2),
    ensures
        r2 is None,
        s2 == s1,
        !s0.is_fetching_media_items ==> r1 is Some,
{
}

/// The books selected for a mass edit after (de)selecting `id`: selecting
/// appends it unless already there; deselecting removes its first
/// occurrence, moving the last book into its place.
pub open spec fn selection_after(items: Seq<BookId>, id: BookId, value: bool) -> Seq<BookId> {
    if value {
        push_new(items, id)
    } else {
        match find_first(items, id, 0) {
            Some(i) => items.update(i, items.last()).drop_last(),
            None => items,
        }
    }
}

fn position_of_book(list: &Vec<BookId>, x: BookId) -> (res: Option<usize>)
    ensures
        match find_first(list@, x, 0) {
            Some(k) => res == Some(k as usize),
            None => res is None,
        },
{
    let mut i: usize = 0;
    while i < list.len()
        invariant
            0 <= i <= list.len(),
            find_first(list@, x, 0) == find_first(list@, x, i as int),
        decreases list.len() - i,
    {
        if list[i] == x {
            return Some(i);
        }
        i = i + 1;
    }
    None
}

/// Selects (`value`) or deselects a book for a mass edit.
pub fn add_or_remove_item_from_editing(items: &mut Vec<BookId>, id: BookId, value: bool)
    ensures
        final(items)@ == selection_after(old(items)@, id, value),
{
    proof {
        lemma_find_first_contains(items@, id);
        lemma_find_first(items@, id, 0);
    }
    let pos = position_of_book(items, id);
    if value {
        if pos.is_none() {
            items.push(id);
        }
    } else if let Some(index) = pos {
        items.swap_remove(index);
    }
}

/// Selecting a book makes it selected, deselecting it makes it unselected,
/// every other book keeps its state, and a selection without repeats keeps
/// none.
pub proof fn law_selection(items: Seq<BookId>, id: BookId, value: bool, other: BookId)
    requires
        items.no_duplicates(),
        other != id,
    ensures
        selection_after(items, id, value).contains(id) == value,
        selection_after(items, id, value).contains(other) == items.contains(other),
        selection_after(items, id, value).no_duplicates(),
{
    let r = selection_after(items, id, value);
    lemma_find_first(items, id, 0);
    lemma_find_first_contains(items, id);
    if value {
        if !items.contains(id) {
            assert(r[items.len() as int] == id);
            assert forall|i: int, j: int| 0 <= i < r.len() && 0 <= j < r.len() && i != j implies r[i]
                != r[j] by {
                if i == items.len() {
                    assert(r[j] == items[j]);
                } else if j == items.len() {
                    assert(r[i] == items[i]);
                }
            }
            if r.contains(other) {
                let k = choose|k: int| 0 <= k < r.len() && r[k] == other;
                assert(items[k] == other);
            }
            if items.contains(other) {
                let k = choose|k: int| 0 <= k < items.len() && items[k] == other;
                assert(r[k] == other);
            }
        }
    } else {
        match find_first(items, id, 0) {
            Some(i) => {
                let n = items.len() as int;
                assert forall|j: int| 0 <= j < r.len() implies r[j] != id by {
                    if j == i {
                        assert(r[j] == items[n - 1]);
                        if i != n - 1 {
                            assert(items[n - 1] != items[i]);
                        }
                    } else {
                        assert(r[j] == items[j]);
                    }
                }
                assert forall|a: int, b: int| 0 <= a < r.len() && 0 <= b < r.len() && a != b implies r[a]
                    != r[b] by {
                    let a2 = if a == i { n - 1 } else { a };
                    let b2 = if b == i { n - 1 } else { b };
                    assert(r[a] == items[a2]);
                    assert(r[b] == items[b2]);
                }
                if r.contains(other) {
                    let k = choose|k: int| 0 <= k < r.len() && r[k] == other;
                    if k == i {
                        assert(items[n - 1] == other);
                    } else {
                        assert(items[k] == other);
                    }
                }
                if items.contains(other) {
                    let k = choose|k: int| 0 <= k < items.len() && items[k] == other;
                    assert(k != i);
                    if k == n - 1 {
                        assert(r[i] == other);
                    } else {
                        assert(r[k] == other);
                    }
                }
            },
            None => {},
        }
    }
}

/// A character `clean_title` turns into `-`: a space or one of
/// `! @ # $ ^ & * ( ) ? . | \ /`.
pub open spec fn is_title_separator(c: char) -> bool {
    c == ' ' || c == '!' || c == '@' || c == '#' || c == '$' || c == '^' || c == '&' || c == '*'
        || c == '(' || c == ')' || c == '?' || c == '.' || c == '|' || c == '\\' || c == '/'
}

/// A collection name made into an address part: trimmed, in lower case, with
/// spaces and punctuation turned into `-`.
pub open spec fn clean_title_text(value: Seq<char>) -> Seq<char> {
    lowercase(trim(value)).map_values(|c: char| if is_title_separator(c) { '-' } else { c })
}

/// Makes a collection name into an address part.
pub fn clean_title(value: &str) -> (res: String)
    ensures
        res@ == clean_title_text(value@),
{
    let trimmed = string_from_chars(&trim_chars(&chars_of(value)));
    let lower = to_lowercase(trimmed.as_str());
    let chars = chars_of(lower.as_str());
    let mut out: Vec<char> = Vec::new();
    let mut i: usize = 0;
    while i < chars.len()
        invariant
            0 <= i <= chars.len(),
            out@ == chars@.take(i as int).map_values(
                |c: char|
                    if is_title_separator(c) {
                        '-'
                    } else {
                        c
                    },
            ),
        decreases chars.len() - i,
    {
        let c = chars[i];
        let sep = c == ' ' || c == '!' || c == '@' || c == '#' || c == '$' || c == '^' || c == '&'
            || c == '*' || c == '(' || c == ')' || c == '?' || c == '.' || c == '|' || c == '\\'
            || c == '/';
        out.push(if sep { '-' } else { c });
        assert(chars@.take(i + 1) =~= chars@.take(i as int).push(c));
        i = i + 1;
    }
    assert(chars@.take(chars.len() as int) =~= chars@);
    string_from_chars(&out)
}

/// The characters that may not stay in a collection's address part: a space
/// and `! @ # $ ^ & * ( ) ? . | \ /`.
pub open spec fn address_punctuation() -> Seq<char> {
    seq![' ', '!', '@', '#', '$', '^', '&', '*', '(', ')', '?', '.', '|', '\\', '/']
}

/// The address part of a collection name is the name trimmed and in lower
/// case, character for character, except that each space or punctuation mark
/// among `! @ # $ ^ & * ( ) ? . | \ /` becomes `-`; so none of them is left in it.
pub proof fn law_clean_title_replaces_punctuation(value: Seq<char>)
    ensures
        clean_title_text(value).len() == lowercase(trim(value)).len(),
        forall|i: int|
            0 <= i < clean_title_text(value).len() ==> (if address_punctuation().contains(
                lowercase(trim(value))[i],
            ) {
                #[trigger] clean_title_text(value)[i] == '-'
            } else {
                clean_title_text(value)[i] == lowercase(trim(value))[i]
            }),
        forall|i: int|
            0 <= i < clean_title_text(value).len() ==> !address_punctuation().contains(
                #[trigger] clean_title_text(value)[i],
            ),
{
    let l = lowercase(trim(value));
    let r = clean_title_text(value);
    let p = address_punctuation();
    assert forall|c: char| p.contains(c) <==> is_title_separator(c) by {
        if is_title_separator(c) {
            if c == ' ' { assert(p[0] == c); }
            else if c == '!' { assert(p[1] == c); }
            else if c == '@' { assert(p[2] == c); }
            else if c == '#' { assert(p[3] == c); }
            else if c == '$' { assert(p[4] == c); }
            else if c == '^' { assert(p[5] == c); }
            else if c == '&' { assert(p[6] == c); }
            else if c == '*' { assert(p[7] == c); }
            else if c == '(' { assert(p[8] == c); }
            else if c == ')' { assert(p[9] == c); }
            else if c == '?' { assert(p[10] == c); }
            else if c == '.' { assert(p[11] == c); }
            else if c == '|' { assert(p[12] == c); }
            else if c == '\\' { assert(p[13] == c); }
            else { assert(p[14] == c); }
        }
    }
    assert forall|i: int| 0 <= i < r.len() implies !p.contains(#[trigger] r[i]) by {
        assert(r[i] == if is_title_separator(l[i]) { '-' } else { l[i] });
    }
}

} // verus!
