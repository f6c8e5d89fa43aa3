use vstd::prelude::*;
use crate::edit_kind::EditType;
use crate::ids::{BookId, ImageId, PersonId, TagId};
use crate::text::{decimal, push_decimal, push_str, string_of};

verus! {

/// An image given by its address, or one already stored.
#[derive(Debug, Clone, PartialEq, Eq)]
pub enum NewOrCachedImage {
    Url(String),
    Id(ImageId),
}

/// The address at which an image can be fetched: the given address, or the
/// thumbnail route of a stored image.
pub open spec fn image_url(img: NewOrCachedImage) -> Seq<char> {
    match img {
        NewOrCachedImage::Url(v) => v@,
        NewOrCachedImage::Id(id) => "/api/v1/book/"@ + decimal(id.0 as nat) + "/thumbnail"@,
    }
}

impl NewOrCachedImage {
    /// The address at which the image can be fetched.
    pub fn as_url(&self) -> (res: String)
        ensures
            res@ == image_url(*self),
    {
        match self {
            Self::Url(v) => string_of(v.as_str()),
            Self::Id(v) => {
                let mut s = string_of("/api/v1/book/");
                push_decimal(&mut s, v.0 as u64);
                push_str(&mut s, "/thumbnail");
                s
            },
        }
    }
}

/// Whether a flag is unset (fields that are unset are left out when written).
pub fn is_false(value: &bool) -> (res: bool)
    ensures
        res == !*value,
{
    !*value
}

/// The list an optional list stands for: empty when absent.
pub open spec fn list_of<T>(o: Option<Vec<T>>) -> Seq<T> {
    match o {
        Some(v) => v@,
        None => Seq::empty(),
    }
}

/// A proposed change to a book. Every field left `None` is left as it is.
/// The rating is held as the bit pattern of the 64-bit floating-point value.
#[derive(Debug, Clone, PartialEq)]
pub struct BookEdit {
    pub title: Option<String>,
    pub clean_title: Option<String>,
    pub description: Option<String>,
    pub rating: Option<u64>,
    pub is_public: Option<bool>,
    pub available_at: Option<i64>,
    pub language: Option<u16>,
    pub display_person_id: Option<PersonId>,
    pub publisher: Option<String>,
    pub updated_people: Option<Vec<(PersonId, Option<String>)>>,
    pub added_people: Option<Vec<PersonId>>,
    pub removed_people: Option<Vec<PersonId>>,
    pub added_tags: Option<Vec<TagId>>,
    pub removed_tags: Option<Vec<TagId>>,
    pub added_images: Option<Vec<NewOrCachedImage>>,
    pub removed_images: Option<Vec<ImageId>>,
    pub added_isbns: Option<Vec<String>>,
    pub removed_isbns: Option<Vec<String>>,
}

/// No field of the edit is set.
pub open spec fn book_edit_empty(e: BookEdit) -> bool {
    &&& e.title is None
    &&& e.clean_title is None
    &&& e.description is None
    &&& e.rating is None
    &&& e.is_public is None
    &&& e.available_at is None
    &&& e.language is None
    &&& e.publisher is None
    &&& e.display_person_id is None
    &&& e.added_isbns is None
    &&& e.removed_isbns is None
    &&& e.updated_people is None
    &&& e.added_people is None
    &&& e.removed_people is None
    &&& e.added_tags is None
    &&& e.removed_tags is None
    &&& e.added_images is None
    &&& e.removed_images is None
}

impl Default for BookEdit {
    fn default() -> (res: Self)
        ensures
            book_edit_empty(res),
    {
        BookEdit {
            title: None,
            clean_title: None,
            description: None,
            rating: None,
            is_public: None,
            available_at: None,
            language: None,
            display_person_id: None,
            publisher: None,
            updated_people: None,
            added_people: None,
            removed_people: None,
            added_tags: None,
            removed_tags: None,
            added_images: None,
            removed_images: None,
            added_isbns: None,
            removed_isbns: None,
        }
    }
}

/// Whether `s` is in `list`, comparing the text.
pub open spec fn has_string(list: Seq<String>, s: Seq<char>) -> bool {
    exists|i: int| 0 <= i < list.len() && list[i]@ == s
}

/// `list` with `x` appended unless already there.
pub open spec fn push_new<T>(list: Seq<T>, x: T) -> Seq<T> {
    if list.contains(x) {
        list
    } else {
        list.push(x)
    }
}

/// The first position at or after `i` where `x` stands in `s`.
pub open spec fn find_first<T>(s: Seq<T>, x: T, i: int) -> Option<int>
    decreases s.len() - i,
{
    if i < 0 || i >= s.len() {
        None
    } else if s[i] == x {
        Some(i)
    } else {
        find_first(s, x, i + 1)
    }
}

/// The first position at or after `i` of an entry about person `id`.
pub open spec fn find_person(list: Seq<(PersonId, Option<String>)>, id: PersonId, i: int) -> Option<
    int,
>
    decreases list.len() - i,
{
    if i < 0 || i >= list.len() {
        None
    } else if list[i].0 == id {
        Some(i)
    } else {
        find_person(list, id, i + 1)
    }
}

/// The position of the first entry about person `id`.
pub open spec fn person_entry_index(list: Seq<(PersonId, Option<String>)>, id: PersonId) -> Option<
    int,
> {
    find_person(list, id, 0)
}

/// The person list after setting the relation text of `id` to `value`: the
/// first entry about `id` is changed, or a new entry is appended.
pub open spec fn set_person_entry(
    list: Seq<(PersonId, Option<String>)>,
    id: PersonId,
    value: Option<String>,
) -> Seq<(PersonId, Option<String>)> {
    match person_entry_index(list, id) {
        Some(i) => list.update(i, (id, value)),
        None => list.push((id, value)),
    }
}

/// `list` without its first `x` (unchanged when `x` is absent).
pub open spec fn remove_first<T>(list: Seq<T>, x: T) -> Seq<T> {
    match find_first(list, x, 0) {
        Some(i) => list.remove(i),
        None => list,
    }
}

/// `find_first` finds `x`, at or after `i`, exactly when `x` stands there.
pub proof fn lemma_find_first<T>(s: Seq<T>, x: T, i: int)
    requires
        0 <= i,
    ensures
        match find_first(s, x, i) {
            Some(k) => i <= k < s.len() && s[k] == x,
            None => forall|j: int| i <= j < s.len() ==> s[j] != x,
        },
    decreases s.len() - i,
{
    if i < s.len() && s[i] != x {
        lemma_find_first(s, x, i + 1);
    }
}

/// `x` is in `s` exactly when `find_first` finds it.
pub proof fn lemma_find_first_contains<T>(s: Seq<T>, x: T)
    ensures
        s.contains(x) <==> find_first(s, x, 0) is Some,
{
    lemma_find_first(s, x, 0);
}

/// An optional list after removing the first `x`: a list left empty by the
/// removal becomes absent.
pub open spec fn remove_first_opt<T>(o: Option<Vec<T>>, x: T) -> Option<Seq<T>> {
    match o {
        Some(v) => if find_first(v@, x, 0) is Some {
            let r = remove_first(v@, x);
            if r.len() == 0 {
                None
            } else {
                Some(r)
            }
        } else {
            Some(v@)
        },
        None => None,
    }
}

/// The view of an optional list.
pub open spec fn opt_view<T>(o: Option<Vec<T>>) -> Option<Seq<T>> {
    match o {
        Some(v) => Some(v@),
        None => None,
    }
}

fn take_list<T>(o: &mut Option<Vec<T>>) -> (res: Vec<T>)
    ensures
        res@ == list_of(*old(o)),
        *final(o) is None,
{
    match o.take() {
        Some(v) => v,
        None => Vec::new(),
    }
}

fn position_of_tag(list: &Vec<TagId>, x: TagId) -> (res: Option<usize>)
    ensures
        match find_first(list@, x, 0) {
            Some(k) => res == Some(k as usize),
            None => res is None,
        },
{
    let mut i: usize = 0;
    while i < list.len()
        invariant
            0 <= i <= list.len(),
            find_first(list@, x, 0) == find_first(list@, x, i as int),
        decreases list.len() - i,
    {
        if list[i] == x {
            return Some(i);
        }
        i = i + 1;
    }
    None
}

fn position_of_person(list: &Vec<PersonId>, x: PersonId) -> (res: Option<usize>)
    ensures
        match find_first(list@, x, 0) {
            Some(k) => res == Some(k as usize),
            None => res is None,
        },
{
    let mut i: usize = 0;
    while i < list.len()
        invariant
            0 <= i <= list.len(),
            find_first(list@, x, 0) == find_first(list@, x, i as int),
        decreases list.len() - i,
    {
        if list[i] == x {
            return Some(i);
        }
        i = i + 1;
    }
    None
}

fn contains_string(list: &Vec<String>, s: &String) -> (res: bool)
    ensures
        res == has_string(list@, s@),
{
    let mut i: usize = 0;
    while i < list.len()
        invariant
            0 <= i <= list.len(),
            forall|j: int| 0 <= j < i ==> list@[j]@ != s@,
        decreases list.len() - i,
    {
        if list[i] == *s {
            return true;
        }
        i = i + 1;
    }
    false
}

impl BookEdit {
    /// Whether no field of the edit is set.
    pub fn is_empty(&self) -> (res: bool)
        ensures
            res == book_edit_empty(*self),
    {
        self.title.is_none() && self.clean_title.is_none() && self.description.is_none()
            && self.rating.is_none() && self.is_public.is_none() && self.available_at.is_none()
            && self.language.is_none() && self.publisher.is_none()
            && self.display_person_id.is_none() && self.added_isbns.is_none()
            && self.removed_isbns.is_none() && self.updated_people.is_none()
            && self.added_people.is_none() && self.removed_people.is_none()
            && self.added_tags.is_none() && self.removed_tags.is_none()
            && self.added_images.is_none() && self.removed_images.is_none()
    }

    /// Adds an ISBN to the added list unless the same text is already there.
    pub fn insert_added_isbn(&mut self, value: String)
        ensures
            final(self).added_isbns matches Some(v) && v@ == (if has_string(
                list_of(old(self).added_isbns),
                value@,
            ) {
                list_of(old(self).added_isbns)
            } else {
                list_of(old(self).added_isbns).push(value)
            }),
            *final(self) == (BookEdit { added_isbns: final(self).added_isbns, ..*old(self) }),
    {
        let mut items = take_list(&mut self.added_isbns);
        if !contains_string(&items, &value) {
            items.push(value);
        }
        self.added_isbns = Some(items);
    }

    /// Appends an ISBN to the removed list.
    pub fn insert_removed_isbn(&mut self, value: String)
        ensures
            final(self).added_isbns == old(self).added_isbns,
            final(self).removed_isbns matches Some(v) && v@ == list_of(old(self).removed_isbns).push(
                value,
            ),
            *final(self) == (BookEdit { removed_isbns: final(self).removed_isbns, ..*old(self) }),
    {
        let mut items = take_list(&mut self.removed_isbns);
        items.push(value);
        self.removed_isbns = Some(items);
    }

    /// Adds a person to the added list unless already there.
    pub fn insert_added_person(&mut self, id: PersonId)
        ensures
            final(self).added_people matches Some(v) && v@ == push_new(
                list_of(old(self).added_people),
                id,
            ),
            *final(self) == (BookEdit { added_people: final(self).added_people, ..*old(self) }),
    {
        let mut list = take_list(&mut self.added_people);
        proof {
            lemma_find_first_contains(list@, id);
        }
        if position_of_person(&list, id).is_none() {
            list.push(id);
        }
        self.added_people = Some(list);
    }

    /// Sets the relation text of a person: the first entry about that person
    /// is changed, or a new entry is appended.
    pub fn insert_updated_person(&mut self, id: PersonId, value: Option<String>)
        ensures
            final(self).updated_people matches Some(v) && v@ == set_person_entry(
                list_of(old(self).updated_people),
                id,
                value,
            ),
            *final(self) == (BookEdit { updated_people: final(self).updated_people, ..*old(self) }),
    {
        let mut list = take_list(&mut self.updated_people);
        let ghost old_list = list@;
        let mut i: usize = 0;
        while i < list.len()
            invariant
                list@ == old_list,
                old_list == list_of(old(self).updated_people),
                *self == (BookEdit { updated_people: None, ..*old(self) }),
                0 <= i <= list.len(),
                find_person(old_list, id, 0) == find_person(old_list, id, i as int),
            decreases list.len() - i,
        {
            if list[i].0 == id {
                list.set(i, (id, value));
                self.updated_people = Some(list);
                return;
            }
            i = i + 1;
        }
        list.push((id, value));
        self.updated_people = Some(list);
    }

    /// Appends a tag to the added list.
    pub fn insert_added_tag(&mut self, value: TagId)
        ensures
            final(self).added_tags matches Some(v) && v@ == list_of(old(self).added_tags).push(
                value,
            ),
            *final(self) == (BookEdit { added_tags: final(self).added_tags, ..*old(self) }),
    {
        let mut list = take_list(&mut self.added_tags);
        list.push(value);
        self.added_tags = Some(list);
    }

    /// Appends a tag to the removed list.
    pub fn insert_removed_tag(&mut self, value: TagId)
        ensures
            final(self).removed_tags matches Some(v) && v@ == list_of(old(self).removed_tags).push(
                value,
            ),
            *final(self) == (BookEdit { removed_tags: final(self).removed_tags, ..*old(self) }),
    {
        let mut list = take_list(&mut self.removed_tags);
        list.push(value);
        self.removed_tags = Some(list);
    }

    /// Withdraws a tag change: the first occurrence of the tag leaves the added
    /// list if it is there, else the removed list; a list left empty becomes
    /// absent.
    pub fn remove_tag(&mut self, value: TagId)
        ensures
            list_of(old(self).added_tags).contains(value) ==> {
                &&& opt_view(final(self).added_tags) == remove_first_opt(old(self).added_tags, value)
                &&& *final(self) == (BookEdit { added_tags: final(self).added_tags, ..*old(self) })
            },
            !list_of(old(self).added_tags).contains(value) ==> {
                &&& opt_view(final(self).removed_tags) == remove_first_opt(
                    old(self).removed_tags,
                    value,
                )
                &&& *final(self) == (BookEdit {
                    removed_tags: final(self).removed_tags,
                    ..*old(self)
                })
            },
    {
        proof {
            lemma_find_first_contains(list_of(self.added_tags), value);
            lemma_find_first_contains(list_of(self.removed_tags), value);
            lemma_find_first(list_of(self.added_tags), value, 0);
            lemma_find_first(list_of(self.removed_tags), value, 0);
        }
        if let Some(list) = self.added_tags.as_mut() {
            if let Some(index) = position_of_tag(list, value) {
                list.remove(index);
                if list.len() == 0 {
                    self.added_tags = None;
                }
                return;
            }
        }
        if let Some(list) = self.removed_tags.as_mut() {
            if let Some(index) = position_of_tag(list, value) {
                list.remove(index);
                if list.len() == 0 {
                    self.removed_tags = None;
                }
            }
        }
    }
}


impl BookEdit {
    /// The relation text the edit records for person `id`: that of the first
    /// entry about it among the updated people; `None` where there is no such
    /// entry or it records no text.
    pub fn edited_person_info(&self, id: PersonId) -> (res: Option<String>)
        ensures
            res == match self.updated_people {
                Some(v) => match person_relation(v@, id) {
                    Some(t) => t,
                    None => None,
                },
                None => None,
            },
    {
        match &self.updated_people {
            Some(v) => {
                let mut i: usize = 0;
                while i < v.len()
                    invariant
                        i <= v.len(),
                        self.updated_people == Some(*v),
                        find_person(v@, id, 0) == find_person(v@, id, i as int),
                    decreases v.len() - i,
                {
                    if v[i].0 == id {
                        return match &v[i].1 {
                            Some(s) => Some(s.clone()),
                            None => None,
                        };
                    }
                    i = i + 1;
                }
                None
            },
            None => None,
        }
    }
}

/// The relation text recorded for person `id`, if there is an entry about it.
pub open spec fn person_relation(list: Seq<(PersonId, Option<String>)>, id: PersonId) -> Option<
    Option<String>,
> {
    match person_entry_index(list, id) {
        Some(k) => Some(list[k].1),
        None => None,
    }
}

proof fn lemma_find_person(list: Seq<(PersonId, Option<String>)>, id: PersonId, i: int)
    requires
        0 <= i,
    ensures
        match find_person(list, id, i) {
            Some(k) => i <= k < list.len() && list[k].0 == id && forall|j: int|
                i <= j < k ==> list[j].0 != id,
            None => forall|j: int| i <= j < list.len() ==> list[j].0 != id,
        },
    decreases list.len() - i,
{
    if i < list.len() && list[i].0 != id {
        lemma_find_person(list, id, i + 1);
    }
}

proof fn lemma_find_person_same(
    a: Seq<(PersonId, Option<String>)>,
    b: Seq<(PersonId, Option<String>)>,
    id: PersonId,
    i: int,
)
    requires
        0 <= i,
        a.len() <= b.len(),
        forall|j: int| 0 <= j < a.len() ==> b[j].0 == a[j].0,
        forall|j: int| a.len() <= j < b.len() ==> b[j].0 != id,
    ensures
        find_person(b, id, i) == find_person(a, id, i),
    decreases b.len() - i,
{
    if i < b.len() {
        lemma_find_person_same(a, b, id, i + 1);
    }
}

/// After setting the relation text of a person, reading it gives the text
/// that was set, and the texts of all other people are unchanged.
pub proof fn law_person_relation_read_after_write(
    list: Seq<(PersonId, Option<String>)>,
    id: PersonId,
    value: Option<String>,
    other: PersonId,
)
    requires
        other != id,
    ensures
        person_relation(set_person_entry(list, id, value), id) == Some(value),
        person_relation(set_person_entry(list, id, value), other) == person_relation(list, other),
{
    lemma_find_person(list, id, 0);
    lemma_find_person(list, other, 0);
    let r = set_person_entry(list, id, value);
    match find_person(list, id, 0) {
        Some(k) => {
            assert forall|j: int| 0 <= j < list.len() implies r[j].0 == list[j].0 by {}
            lemma_find_person_same(list, r, other, 0);
            lemma_find_person_same_prefix(list, r, id, k);
        },
        None => {
            assert forall|j: int| 0 <= j < list.len() implies r[j].0 == list[j].0 by {}
            lemma_find_person_same(list, r, other, 0);
            lemma_find_person_tail(list, r, id, 0);
        },
    }
}

proof fn lemma_find_person_same_prefix(
    a: Seq<(PersonId, Option<String>)>,
    b: Seq<(PersonId, Option<String>)>,
    id: PersonId,
    k: int,
)
    requires
        0 <= k < a.len(),
        a.len() == b.len(),
        forall|j: int| 0 <= j < a.len() ==> b[j].0 == a[j].0,
        find_person(a, id, 0) == Some(k),
    ensures
        find_person(b, id, 0) == Some(k),
{
    lemma_find_person_same(a, b, id, 0);
}

proof fn lemma_find_person_tail(
    a: Seq<(PersonId, Option<String>)>,
    b: Seq<(PersonId, Option<String>)>,
    id: PersonId,
    i: int,
)
    requires
        0 <= i <= a.len(),
        b.len() == a.len() + 1,
        forall|j: int| 0 <= j < a.len() ==> b[j].0 == a[j].0,
        forall|j: int| i <= j < a.len() ==> a[j].0 != id,
        b[a.len() as int].0 == id,
    ensures
        find_person(b, id, i) == Some(a.len() as int),
    decreases a.len() - i,
{
    if i < a.len() {
        lemma_find_person_tail(a, b, id, i + 1);
    }
}

/// Adding a value that is already present changes nothing: adding twice is
/// adding once, and a list without repeats keeps none.
pub proof fn law_push_new_idempotent<T>(list: Seq<T>, x: T)
    ensures
        push_new(push_new(list, x), x) == push_new(list, x),
        list.no_duplicates() ==> push_new(list, x).no_duplicates(),
        push_new(list, x).contains(x),
{
    if !list.contains(x) {
        assert(list.push(x)[list.len() as int] == x);
    }
}

/// Adding an ISBN whose text is already present changes nothing.
pub proof fn law_added_isbn_idempotent(list: Seq<String>, value: String)
    ensures
        has_string(
            (if has_string(list, value@) {
                list
            } else {
                list.push(value)
            }),
            value@,
        ),
{
    if !has_string(list, value@) {
        assert(list.push(value)[list.len() as int]@ == value@);
    }
}

/// Withdrawing a tag that was just added restores the added list, when the
/// tag was not in it before and the list was not present-but-empty.
pub proof fn law_remove_tag_undoes_insert(
    before: Option<Vec<TagId>>,
    after: Option<Vec<TagId>>,
    x: TagId,
)
    requires
        !list_of(before).contains(x),
        before matches Some(v) ==> v@.len() > 0,
        after matches Some(v) && v@ == list_of(before).push(x),
    ensures
        remove_first_opt(after, x) == opt_view(before),
{
    let l = list_of(before);
    let a = l.push(x);
    lemma_find_first(l, x, 0);
    lemma_find_first_push_tail(l, x, 0);
    assert(find_first(a, x, 0) == Some(l.len() as int));
    assert(a.remove(l.len() as int) =~= l);
    lemma_find_first_contains(a, x);
}

proof fn lemma_find_first_push_tail<T>(l: Seq<T>, x: T, i: int)
    requires
        0 <= i <= l.len(),
        !l.contains(x),
    ensures
        find_first(l.push(x), x, i) == Some(l.len() as int),
    decreases l.len() - i,
{
    if i < l.len() {
        assert(l.push(x)[i] == l[i]);
        assert(l[i] != x) by {
            if l[i] == x {
                assert(l.contains(x));
            }
        }
        lemma_find_first_push_tail(l, x, i + 1);
    }
}

/// Which fields of a book an edit changed.
#[derive(Debug, Clone, Copy, PartialEq, Eq, Structural)]
pub struct UpdatedBookEdit {
    pub title: bool,
    pub clean_title: bool,
    pub description: bool,
    pub rating: bool,
    pub is_public: bool,
    pub available_at: bool,
    pub language: bool,
    pub added_isbns: bool,
    pub removed_isbns: bool,
    pub updated_people: bool,
    pub added_people: bool,
    pub removed_people: bool,
    pub display_person_id: bool,
    pub publisher: bool,
}

impl UpdatedBookEdit {
    /// Whether none of the fields it reports on changed. The changed people
    /// relations are not among them.
    pub fn is_empty(&self) -> (res: bool)
        ensures
            res == (!self.title && !self.clean_title && !self.description && !self.rating
                && !self.is_public && !self.available_at && !self.language && !self.publisher
                && !self.display_person_id && !self.added_people && !self.removed_people
                && !self.added_isbns && !self.removed_isbns),
    {
        !self.title && !self.clean_title && !self.description && !self.rating && !self.is_public
            && !self.available_at && !self.language && !self.publisher && !self.display_person_id
            && !self.added_people && !self.removed_people && !self.added_isbns
            && !self.removed_isbns
    }
}

impl Default for UpdatedBookEdit {
    fn default() -> (res: Self)
        ensures
            !res.title && !res.clean_title && !res.description && !res.rating && !res.is_public
                && !res.available_at && !res.language && !res.added_isbns && !res.removed_isbns
                && !res.updated_people && !res.added_people && !res.removed_people
                && !res.display_person_id && !res.publisher,
    {
        UpdatedBookEdit {
            title: false,
            clean_title: false,
            description: false,
            rating: false,
            is_public: false,
            available_at: false,
            language: false,
            added_isbns: false,
            removed_isbns: false,
            updated_people: false,
            added_people: false,
            removed_people: false,
            display_person_id: false,
            publisher: false,
        }
    }
}

/// A proposed change to a person.
#[derive(Debug, Clone, PartialEq, Eq)]
pub struct PersonEdit {
    pub name: Option<String>,
    pub description: Option<String>,
    pub birth_date: Option<String>,
    pub added_images: Option<Vec<NewOrCachedImage>>,
    pub removed_images: Option<Vec<ImageId>>,
}

impl PersonEdit {
    /// Whether no field of the edit is set.
    pub fn is_empty(&self) -> (res: bool)
        ensures
            res == (self.name is None && self.description is None && self.birth_date is None
                && self.added_images is None && self.removed_images is None),
    {
        self.name.is_none() && self.description.is_none() && self.birth_date.is_none()
            && self.added_images.is_none() && self.removed_images.is_none()
    }
}

impl Default for PersonEdit {
    fn default() -> (res: Self)
        ensures
            res.name is None && res.description is None && res.birth_date is None
                && res.added_images is None && res.removed_images is None,
    {
        PersonEdit {
            name: None,
            description: None,
            birth_date: None,
            added_images: None,
            removed_images: None,
        }
    }
}

/// Which fields of a person an edit changed.
#[derive(Debug, Clone, Copy, PartialEq, Eq, Structural)]
pub struct UpdatedPersonEdit {
    pub name: bool,
    pub description: bool,
    pub birth_date: bool,
}

impl UpdatedPersonEdit {
    /// Whether no field changed.
    pub fn is_empty(&self) -> (res: bool)
        ensures
            res == (!self.name && !self.description && !self.birth_date),
    {
        !self.name && !self.description && !self.birth_date
    }
}

impl Default for UpdatedPersonEdit {
    fn default() -> (res: Self)
        ensures
            !res.name && !res.description && !res.birth_date,
    {
        UpdatedPersonEdit { name: false, description: false, birth_date: false }
    }
}

/// The data of an edit: the model as it is now, the new and old values the
/// edit carries, and which fields were changed.
#[derive(Debug, Clone)]
pub struct InnerEditData<Curr, Cached, Update> {
    pub current: Option<Curr>,
    pub new: Option<Cached>,
    pub old: Option<Cached>,
    pub updated: Option<Update>,
}

/// The model an edit is about, by kind.
#[derive(Debug, Clone, Copy, PartialEq, Eq, Structural)]
pub enum ModelIdGroup {
    Book(BookId),
    Person(PersonId),
    Tag(TagId),
}

/// The model an edit of kind `type_of` about model `model_id` points at.
/// Edits of collections carry no model id.
pub fn get_model_id(type_of: EditType, model_id: Option<usize>) -> (res: Option<ModelIdGroup>)
    requires
        model_id is Some ==> !(type_of is Collection),
    ensures
        res == match model_id {
            None => None,
            Some(id) => match type_of {
                EditType::Book => Some(ModelIdGroup::Book(BookId(id))),
                EditType::Person => Some(ModelIdGroup::Person(PersonId(id))),
                _ => Some(ModelIdGroup::Tag(TagId(id))),
            },
        },
{
    match model_id {
        None => None,
        Some(id) => match type_of {
            EditType::Book => Some(ModelIdGroup::Book(BookId(id))),
            EditType::Person => Some(ModelIdGroup::Person(PersonId(id))),
            _ => Some(ModelIdGroup::Tag(TagId(id))),
        },
    }
}

} // verus!
