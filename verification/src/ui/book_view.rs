use vstd::prelude::*;
use crate::book_edit::{
    book_edit_empty, find_first, lemma_find_first, lemma_find_first_contains, list_of, opt_view, push_new,
    remove_first, remove_first_opt, set_person_entry, BookEdit,
};
use crate::ids::{BookId, PersonId, TagId};
use crate::text::{
    chars_of, is_blank, parse_bool, parse_bool_chars, parse_unsigned, parse_unsigned_chars,
    str_eq,
};

verus! {

/// Whether tag `t` shows as selected on a book whose stored tags are `db`,
/// while the edit adds `added` and removes `removed`.
pub open spec fn tag_selected(db: Seq<TagId>, added: Seq<TagId>, removed: Seq<TagId>, t: TagId) -> bool {
    (db.contains(t) && !removed.contains(t)) || added.contains(t)
}

/// The tag lists of an edit are consistent with the stored tags: no repeats,
/// only tags the book lacks are added, only tags it has are removed.
pub open spec fn tag_edit_wf(db: Seq<TagId>, added: Seq<TagId>, removed: Seq<TagId>) -> bool {
    &&& added.no_duplicates()
    &&& removed.no_duplicates()
    &&& forall|t: TagId| added.contains(t) ==> !db.contains(t)
    &&& forall|t: TagId| removed.contains(t) ==> db.contains(t)
}

/// What toggling tag `t` on or off does to the edit `before`, giving `after`.
pub open spec fn toggle_tag_post(
    db: Seq<TagId>,
    before: BookEdit,
    after: BookEdit,
    inserted: bool,
    t: TagId,
) -> bool {
    if inserted == db.contains(t) {
        // Undo an earlier change of this tag.
        if list_of(before.added_tags).contains(t) {
            &&& opt_view(after.added_tags) == remove_first_opt(before.added_tags, t)
            &&& after == (BookEdit { added_tags: after.added_tags, ..before })
        } else {
            &&& opt_view(after.removed_tags) == remove_first_opt(before.removed_tags, t)
            &&& after == (BookEdit { removed_tags: after.removed_tags, ..before })
        }
    } else if inserted {
        &&& after.added_tags matches Some(v) && v@ == list_of(before.added_tags).push(t)
        &&& after == (BookEdit { added_tags: after.added_tags, ..before })
    } else {
        &&& after.removed_tags matches Some(v) && v@ == list_of(before.removed_tags).push(t)
        &&& after == (BookEdit { removed_tags: after.removed_tags, ..before })
    }
}

fn contains_tag(list: &Vec<TagId>, t: TagId) -> (res: bool)
    ensures
        res == list@.contains(t),
{
    let mut i: usize = 0;
    while i < list.len()
        invariant
            0 <= i <= list.len(),
            forall|j: int| 0 <= j < i ==> list@[j] != t,
        decreases list.len() - i,
    {
        if list[i] == t {
            return true;
        }
        i = i + 1;
    }
    false
}

/// Whether tag `tag` shows as selected while the book is edited: the book has
/// it and the edit does not remove it, or the edit adds it.
pub fn is_tag_selected(book_tags: &Vec<TagId>, edit: &BookEdit, tag: TagId) -> (res: bool)
    ensures
        res == tag_selected(book_tags@, list_of(edit.added_tags), list_of(edit.removed_tags), tag),
{
    let removed = match &edit.removed_tags {
        Some(v) => contains_tag(v, tag),
        None => false,
    };
    let added = match &edit.added_tags {
        Some(v) => contains_tag(v, tag),
        None => false,
    };
    (contains_tag(book_tags, tag) && !removed) || added
}

/// Toggles a tag of a book being edited. Turning on a tag the book already has
/// (or off one it lacks) withdraws the earlier change; turning on a tag it
/// lacks adds it; turning off a tag it has removes it.
pub fn toggle_book_tag(edit: &mut BookEdit, book_tags: &Vec<TagId>, inserted: bool, tag_id: TagId)
    ensures
        toggle_tag_post(book_tags@, *old(edit), *final(edit), inserted, tag_id),
{
    let in_db = contains_tag(book_tags, tag_id);
    if inserted {
        if in_db {
            edit.remove_tag(tag_id);
        } else {
            edit.insert_added_tag(tag_id);
        }
    } else {
        if in_db {
            edit.insert_removed_tag(tag_id);
        } else {
            edit.remove_tag(tag_id);
        }
    }
}

proof fn lemma_remove_first_no_dup(l: Seq<TagId>, t: TagId)
    requires
        l.no_duplicates(),
    ensures
        !remove_first(l, t).contains(t),
        remove_first(l, t).no_duplicates(),
        forall|u: TagId| u != t ==> (remove_first(l, t).contains(u) <==> l.contains(u)),
{
    lemma_find_first(l, t, 0);
    match find_first(l, t, 0) {
        Some(i) => {
            let r = l.remove(i);
            assert forall|j: int| 0 <= j < r.len() implies r[j] != t by {
                if j < i {
                    assert(r[j] == l[j]);
                } else {
                    assert(r[j] == l[j + 1]);
                }
            }
            assert forall|a: int, b: int| 0 <= a < r.len() && 0 <= b < r.len() && a != b implies r[a]
                != r[b] by {
                let a2 = if a < i { a } else { a + 1 };
                let b2 = if b < i { b } else { b + 1 };
                assert(r[a] == l[a2]);
                assert(r[b] == l[b2]);
            }
            assert forall|u: TagId| u != t implies (r.contains(u) <==> l.contains(u)) by {
                if l.contains(u) {
                    let k = choose|k: int| 0 <= k < l.len() && l[k] == u;
                    assert(k != i);
                    if k < i {
                        assert(r[k] == u);
                    } else {
                        assert(r[k - 1] == u);
                    }
                }
                if r.contains(u) {
                    let k = choose|k: int| 0 <= k < r.len() && r[k] == u;
                    if k < i {
                        assert(l[k] == u);
                    } else {
                        assert(l[k + 1] == u);
                    }
                }
            }
        },
        None => {},
    }
}

proof fn lemma_opt_list(o: Option<Vec<TagId>>, t: TagId, after: Option<Vec<TagId>>)
    requires
        opt_view(after) == remove_first_opt(o, t),
        list_of(o).contains(t),
    ensures
        list_of(after) == remove_first(list_of(o), t),
{
    lemma_find_first_contains(list_of(o), t);
}

/// Toggling a tag that shows as unselected on, or one that shows as selected
/// off, makes it show as selected exactly when it was toggled on,
/// leaves every other tag as it showed, and keeps the tag lists consistent.
pub proof fn law_toggle_tag_selects(
    db: Seq<TagId>,
    before: BookEdit,
    after: BookEdit,
    inserted: bool,
    t: TagId,
    other: TagId,
)
    requires
        tag_edit_wf(db, list_of(before.added_tags), list_of(before.removed_tags)),
        toggle_tag_post(db, before, after, inserted, t),
        tag_selected(db, list_of(before.added_tags), list_of(before.removed_tags), t) != inserted,
        other != t,
    ensures
        tag_selected(db, list_of(after.added_tags), list_of(after.removed_tags), t) == inserted,
        tag_selected(db, list_of(after.added_tags), list_of(after.removed_tags), other)
            == tag_selected(db, list_of(before.added_tags), list_of(before.removed_tags), other),
        tag_edit_wf(db, list_of(after.added_tags), list_of(after.removed_tags)),
{
    let a = list_of(before.added_tags);
    let r = list_of(before.removed_tags);
    let a2 = list_of(after.added_tags);
    let r2 = list_of(after.removed_tags);
    if inserted == db.contains(t) {
        if a.contains(t) {
            lemma_opt_list(before.added_tags, t, after.added_tags);
            lemma_remove_first_no_dup(a, t);
            assert(r2 == r);
        } else {
            assert(a2 == a);
            if r.contains(t) {
                lemma_opt_list(before.removed_tags, t, after.removed_tags);
                lemma_remove_first_no_dup(r, t);
            } else {
                lemma_find_first_contains(r, t);
                assert(r2 == r);
            }
        }
    } else if inserted {
        assert(a2 == a.push(t));
        assert(r2 == r);
        assert(!a.contains(t));
        assert(a2.contains(t)) by {
            assert(a2[a.len() as int] == t);
        }
        assert forall|u: TagId| u != t implies (a2.contains(u) <==> a.contains(u)) by {
            if a2.contains(u) {
                let k = choose|k: int| 0 <= k < a2.len() && a2[k] == u;
                assert(k < a.len());
                assert(a[k] == u);
            }
            if a.contains(u) {
                let k = choose|k: int| 0 <= k < a.len() && a[k] == u;
                assert(a2[k] == u);
            }
        }
        assert(a2.no_duplicates()) by {
            assert forall|i: int, j: int| 0 <= i < a2.len() && 0 <= j < a2.len() && i != j implies a2[i]
                != a2[j] by {
                if i == a.len() {
                    assert(a2[j] == a[j]);
                } else if j == a.len() {
                    assert(a2[i] == a[i]);
                }
            }
        }
    } else {
        assert(r2 == r.push(t));
        assert(a2 == a);
        assert(!r.contains(t));
        assert(r2.contains(t)) by {
            assert(r2[r.len() as int] == t);
        }
        assert forall|u: TagId| u != t implies (r2.contains(u) <==> r.contains(u)) by {
            if r2.contains(u) {
                let k = choose|k: int| 0 <= k < r2.len() && r2[k] == u;
                assert(k < r.len());
                assert(r[k] == u);
            }
            if r.contains(u) {
                let k = choose|k: int| 0 <= k < r.len() && r[k] == u;
                assert(r2[k] == u);
            }
        }
        assert(r2.no_duplicates()) by {
            assert forall|i: int, j: int| 0 <= i < r2.len() && 0 <= j < r2.len() && i != j implies r2[i]
                != r2[j] by {
                if i == r.len() {
                    assert(r2[j] == r[j]);
                } else if j == r.len() {
                    assert(r2[i] == r[i]);
                }
            }
        }
    }
}

/// Which field of a book the editor changes. `AvailableAt` carries the seconds
/// that the browser's date parser read from the entered text.
#[derive(Debug, Clone, Copy, PartialEq, Eq, Structural)]
pub enum ChangingType {
    Title,
    OriginalTitle,
    Description,
    AvailableAt(i64),
    Language,
    Publicity,
    PersonDisplayed(PersonId),
    PersonRelation(PersonId),
    PersonAdding(PersonId),
}

/// An optional string holds exactly the text `v` (or nothing when `v` is
/// nothing).
pub open spec fn opt_text_is(o: Option<String>, v: Option<Seq<char>>) -> bool {
    match (o, v) {
        (None, None) => true,
        (Some(s), Some(t)) => s@ == t,
        _ => false,
    }
}

/// Entered text, or nothing when it is blank.
pub open spec fn non_blank(value: Seq<char>) -> Option<Seq<char>> {
    if is_blank(value) {
        None
    } else {
        Some(value)
    }
}

/// What the editor makes of the text `value` entered for `change`: the edit
/// goes from `before` to `after`.
pub open spec fn field_edit_post(before: BookEdit, after: BookEdit, change: ChangingType, value: String) -> bool {
    let v = non_blank(value@);
    let vs: Option<String> = if is_blank(value@) {
        None
    } else {
        Some(value)
    };
    match change {
        ChangingType::Title => opt_text_is(after.title, v) && after == (BookEdit {
            title: after.title,
            ..before
        }),
        ChangingType::OriginalTitle => opt_text_is(after.clean_title, v) && after == (BookEdit {
            clean_title: after.clean_title,
            ..before
        }),
        ChangingType::Description => opt_text_is(after.description, v) && after == (BookEdit {
            description: after.description,
            ..before
        }),
        ChangingType::AvailableAt(sec) => after == (BookEdit {
            available_at: if v is Some {
                Some(sec)
            } else {
                None
            },
            ..before
        }),
        ChangingType::Language => after == (BookEdit {
            language: match v {
                Some(t) => match parse_unsigned(t, 65535) {
                    Some(n) => Some(n as u16),
                    None => None,
                },
                None => None,
            },
            ..before
        }),
        ChangingType::Publicity => after == (BookEdit {
            is_public: match v {
                Some(t) => parse_bool(t),
                None => None,
            },
            ..before
        }),
        ChangingType::PersonDisplayed(id) => after == (BookEdit {
            display_person_id: Some(id),
            ..before
        }),
        ChangingType::PersonRelation(id) => {
            &&& after.updated_people matches Some(l) && l@ == set_person_entry(
                list_of(before.updated_people),
                id,
                vs,
            )
            &&& after == (BookEdit { updated_people: after.updated_people, ..before })
        },
        ChangingType::PersonAdding(id) => {
            &&& after.added_people matches Some(l) && l@ == push_new(
                list_of(before.added_people),
                id,
            )
            &&& after == (BookEdit { added_people: after.added_people, ..before })
        },
    }
}

/// Applies text entered in the book editor. Blank text clears the field;
/// language and publicity are read as a number and as `true`/`false`, and
/// unreadable text clears them. Returns whether the open popup closes (it
/// does when a person was added).
pub fn update_editing(edit: &mut BookEdit, change: ChangingType, value: String) -> (close_popup: bool)
    ensures
        field_edit_post(*old(edit), *final(edit), change, value),
        close_popup == (change is PersonAdding),
{
    let blank = crate::text::is_blank_str(value.as_str());
    let chars = chars_of(value.as_str());
    match change {
        ChangingType::Title => {
            edit.title = if blank { None } else { Some(value) };
            false
        },
        ChangingType::OriginalTitle => {
            edit.clean_title = if blank { None } else { Some(value) };
            false
        },
        ChangingType::Description => {
            edit.description = if blank { None } else { Some(value) };
            false
        },
        ChangingType::AvailableAt(sec) => {
            edit.available_at = if blank { None } else { Some(sec) };
            false
        },
        ChangingType::Language => {
            edit.language = if blank {
                None
            } else {
                match parse_unsigned_chars(&chars, 65535) {
                    Some(n) => Some(n as u16),
                    None => None,
                }
            };
            false
        },
        ChangingType::Publicity => {
            edit.is_public = if blank { None } else { parse_bool_chars(&chars) };
            false
        },
        ChangingType::PersonDisplayed(id) => {
            edit.display_person_id = Some(id);
            false
        },
        ChangingType::PersonRelation(id) => {
            let v = if blank { None } else { Some(value) };
            edit.insert_updated_person(id, v);
            false
        },
        ChangingType::PersonAdding(id) => {
            edit.insert_added_person(id);
            true
        },
    }
}

/// A popup over the book page. `Edit` carries the loaded book data.
#[derive(Debug, Clone)]
pub enum DisplayOverlay<R> {
    Edit(R),
    EditFromMetadata(BookEdit),
    More { book_id: BookId, mouse_x: i32, mouse_y: i32 },
    SearchForBook { input_value: Option<String> },
    AddAuthor,
}

/// Two popups count as the same one: "more" menus of the same book, or book
/// searches with the same text. No other popup equals any popup.
pub open spec fn overlay_eq<R>(a: DisplayOverlay<R>, b: DisplayOverlay<R>) -> bool {
    match (a, b) {
        (
            DisplayOverlay::More { book_id: x, .. },
            DisplayOverlay::More { book_id: y, .. },
        ) => x == y,
        (
            DisplayOverlay::SearchForBook { input_value: x },
            DisplayOverlay::SearchForBook { input_value: y },
        ) => match (x, y) {
            (None, None) => true,
            (Some(p), Some(q)) => p@ == q@,
            _ => false,
        },
        _ => false,
    }
}

/// Whether two popups count as the same one.
pub fn overlays_equal<R>(a: &DisplayOverlay<R>, b: &DisplayOverlay<R>) -> (res: bool)
    ensures
        res == overlay_eq(*a, *b),
{
    match (a, b) {
        (DisplayOverlay::More { book_id: x, .. }, DisplayOverlay::More { book_id: y, .. }) => *x
            == *y,
        (
            DisplayOverlay::SearchForBook { input_value: x },
            DisplayOverlay::SearchForBook { input_value: y },
        ) => match (x, y) {
            (None, None) => true,
            (Some(p), Some(q)) => str_eq(p.as_str(), q.as_str()),
            _ => false,
        },
        _ => false,
    }
}

/// The popup shown after asking for `new` while `current` is shown: asking
/// for the popup that is already shown closes it.
pub open spec fn popup_after<R>(current: Option<DisplayOverlay<R>>, new: DisplayOverlay<R>) -> Option<
    DisplayOverlay<R>,
> {
    match current {
        Some(old) => if overlay_eq(old, new) {
            None
        } else {
            Some(new)
        },
        None => Some(new),
    }
}

/// Shows a popup, or closes it when the same popup is already shown.
pub fn show_popup<R>(current: Option<DisplayOverlay<R>>, new: DisplayOverlay<R>) -> (res: Option<
    DisplayOverlay<R>,
>)
    ensures
        res == popup_after(current, new),
{
    match current {
        Some(old) => if overlays_equal(&old, &new) {
            None
        } else {
            Some(new)
        },
        None => Some(new),
    }
}

/// Asking twice for a "more" menu or a book search opens and then closes it;
/// asking twice for any other popup leaves it open.
pub proof fn law_show_popup_twice<R>(new: DisplayOverlay<R>)
    ensures
        (new is More || new is SearchForBook) ==> popup_after(popup_after(None, new), new) is None,
        !(new is More || new is SearchForBook) ==> popup_after(popup_after(None, new), new) == Some(
            new,
        ),
{
}

/// Enters or leaves edit mode. Leaving discards the edit; entering asks for
/// the posters when they were not loaded yet (the returned flag).
pub fn toggle_edit(is_editing: &mut bool, edit: &mut BookEdit, posters_loaded: bool) -> (reload_posters: bool)
    ensures
        *final(is_editing) == !*old(is_editing),
        *old(is_editing) ==> book_edit_empty(*final(edit)),
        !*old(is_editing) ==> *final(edit) == *old(edit),
        reload_posters == (!*old(is_editing) && !posters_loaded),
{
    let mut reload = false;
    if *is_editing {
        *edit = BookEdit::default();
    } else if !posters_loaded {
        reload = true;
    }
    *is_editing = !*is_editing;
    reload
}

/// Entering text for the title, the original title or the description sets
/// that field, and only that one, to the entered text; blank text clears it.
/// The original title goes to the clean title, never to the title.
pub proof fn law_text_fields_entered(before: BookEdit, after: BookEdit, change: ChangingType, value: String)
    requires
        change is Title || change is OriginalTitle || change is Description,
        field_edit_post(before, after, change, value),
    ensures
        change is Title ==> {
            &&& !is_blank(value@) ==> (after.title matches Some(t) && t@ == value@)
            &&& is_blank(value@) ==> after.title is None
            &&& after.clean_title == before.clean_title
            &&& after.description == before.description
        },
        change is OriginalTitle ==> {
            &&& !is_blank(value@) ==> (after.clean_title matches Some(t) && t@ == value@)
            &&& is_blank(value@) ==> after.clean_title is None
            &&& after.title == before.title
            &&& after.description == before.description
        },
        change is Description ==> {
            &&& !is_blank(value@) ==> (after.description matches Some(t) && t@ == value@)
            &&& is_blank(value@) ==> after.description is None
            &&& after.title == before.title
            &&& after.clean_title == before.clean_title
        },
        after.rating == before.rating,
        after.is_public == before.is_public,
        after.available_at == before.available_at,
        after.language == before.language,
        after.display_person_id == before.display_person_id,
        after.publisher == before.publisher,
        after.updated_people == before.updated_people,
        after.added_people == before.added_people,
        after.removed_people == before.removed_people,
        after.added_tags == before.added_tags,
        after.removed_tags == before.removed_tags,
        after.added_images == before.added_images,
        after.removed_images == before.removed_images,
        after.added_isbns == before.added_isbns,
        after.removed_isbns == before.removed_isbns,
{
}

} // verus!
