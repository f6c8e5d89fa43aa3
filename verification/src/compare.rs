use vstd::prelude::*;
use crate::book_edit::{image_url, BookEdit, NewOrCachedImage, PersonEdit};
use crate::ids::ImageId;

verus! {

/// How the comparison view shows the two values of a field.
#[derive(Debug, Clone, Copy, PartialEq, Eq, Structural)]
pub enum CompareDisplay {
    Text,
    Image,
}

/// A value of a field as the comparison view holds it, before it is turned
/// into JSON.
#[derive(Debug, Clone, PartialEq)]
pub enum MapValue {
    Text(String),
    Flag(bool),
    Integer(i64),
    /// A rating, by the bit pattern of its `f64`.
    Rating(u64),
    Texts(Vec<String>),
}

/// What a [`MapValue`] holds, with strings taken by their characters.
pub ghost enum MapValueView {
    Text(Seq<char>),
    Flag(bool),
    Integer(int),
    Rating(u64),
    Texts(Seq<Seq<char>>),
}

/// The characters of each string of a list.
pub open spec fn texts_view(v: Seq<String>) -> Seq<Seq<char>> {
    v.map_values(|s: String| s@)
}

impl View for MapValue {
    type V = MapValueView;

    open spec fn view(&self) -> MapValueView {
        match self {
            MapValue::Text(s) => MapValueView::Text(s@),
            MapValue::Flag(b) => MapValueView::Flag(*b),
            MapValue::Integer(n) => MapValueView::Integer(*n as int),
            MapValue::Rating(r) => MapValueView::Rating(*r),
            MapValue::Texts(v) => MapValueView::Texts(texts_view(v@)),
        }
    }
}

/// The addresses of a list of images, in order.
pub open spec fn image_urls(images: Seq<NewOrCachedImage>) -> Seq<Seq<char>> {
    images.map_values(|i: NewOrCachedImage| image_url(i))
}

/// The thumbnail addresses of a list of stored images, in order.
pub open spec fn thumbnail_urls(ids: Seq<ImageId>) -> Seq<Seq<char>> {
    ids.map_values(|id: ImageId| image_url(NewOrCachedImage::Id(id)))
}

/// The address of each image of the list, in order.
pub fn collect_image_urls(images: &Vec<NewOrCachedImage>) -> (res: Vec<String>)
    ensures
        texts_view(res@) == image_urls(images@),
{
    let mut res: Vec<String> = Vec::new();
    let mut i: usize = 0;
    while i < images.len()
        invariant
            i <= images.len(),
            res.len() == i,
            forall|j: int| 0 <= j < i ==> #[trigger] res@[j]@ == image_url(images@[j]),
        decreases images.len() - i,
    {
        res.push(images[i].as_url());
        i = i + 1;
    }
    assert(texts_view(res@) =~= image_urls(images@));
    res
}

/// The thumbnail address of each stored image of the list, in order.
pub fn collect_thumbnail_urls(ids: &Vec<ImageId>) -> (res: Vec<String>)
    ensures
        texts_view(res@) == thumbnail_urls(ids@),
{
    let mut res: Vec<String> = Vec::new();
    let mut i: usize = 0;
    while i < ids.len()
        invariant
            i <= ids.len(),
            res.len() == i,
            forall|j: int|
                0 <= j < i ==> #[trigger] res@[j]@ == image_url(NewOrCachedImage::Id(ids@[j])),
        decreases ids.len() - i,
    {
        let image = NewOrCachedImage::Id(ids[i]);
        res.push(image.as_url());
        i = i + 1;
    }
    assert(texts_view(res@) =~= thumbnail_urls(ids@));
    res
}

/// The entries of a comparison map, with each value by its view.
pub open spec fn entries_view<F>(s: Seq<(F, MapValue)>) -> Seq<(F, MapValueView)> {
    s.map_values(|e: (F, MapValue)| (e.0, e.1@))
}

/// One entry for a field whose value is present, none for an absent one.
pub open spec fn entry_if<F>(field: F, value: Option<MapValueView>) -> Seq<(F, MapValueView)> {
    match value {
        Some(v) => seq![(field, v)],
        None => Seq::empty(),
    }
}

/// A text field's value in the comparison map.
pub open spec fn text_value(v: Option<String>) -> Option<MapValueView> {
    match v {
        Some(s) => Some(MapValueView::Text(s@)),
        None => None,
    }
}

fn push_entry<F>(map: &mut Vec<(F, MapValue)>, field: F, value: MapValue)
    ensures
        entries_view(final(map)@) == entries_view(old(map)@).push((field, value@)),
{
    map.push((field, value));
    assert(entries_view(map@) =~= entries_view(old(map)@).push((field, value@)));
}

fn push_text<F>(map: &mut Vec<(F, MapValue)>, field: F, value: &Option<String>)
    ensures
        entries_view(final(map)@) == entries_view(old(map)@) + entry_if(field, text_value(*value)),
{
    match value {
        Some(s) => push_entry(map, field, MapValue::Text(s.clone())),
        None => {
            assert(entries_view(map@) =~= entries_view(map@) + Seq::<(F, MapValueView)>::empty());
        },
    }
}

fn push_images<F>(map: &mut Vec<(F, MapValue)>, field: F, images: &Option<Vec<NewOrCachedImage>>)
    ensures
        entries_view(final(map)@) == entries_view(old(map)@) + entry_if(field, images_value(*images)),
{
    match images {
        Some(v) => push_entry(map, field, MapValue::Texts(collect_image_urls(v))),
        None => {
            assert(entries_view(map@) =~= entries_view(map@) + Seq::<(F, MapValueView)>::empty());
        },
    }
}

fn push_thumbnails<F>(map: &mut Vec<(F, MapValue)>, field: F, ids: &Option<Vec<ImageId>>)
    ensures
        entries_view(final(map)@) == entries_view(old(map)@) + entry_if(field, thumbnails_value(*ids)),
{
    match ids {
        Some(v) => push_entry(map, field, MapValue::Texts(collect_thumbnail_urls(v))),
        None => {
            assert(entries_view(map@) =~= entries_view(map@) + Seq::<(F, MapValueView)>::empty());
        },
    }
}

/// A rating field's value in the comparison map.
pub open spec fn rating_value(v: Option<u64>) -> Option<MapValueView> {
    match v {
        Some(r) => Some(MapValueView::Rating(r)),
        None => None,
    }
}

/// A yes-or-no field's value in the comparison map.
pub open spec fn flag_value(v: Option<bool>) -> Option<MapValueView> {
    match v {
        Some(b) => Some(MapValueView::Flag(b)),
        None => None,
    }
}

/// A time field's value in the comparison map.
pub open spec fn time_value(v: Option<i64>) -> Option<MapValueView> {
    match v {
        Some(t) => Some(MapValueView::Integer(t as int)),
        None => None,
    }
}

/// A language field's value in the comparison map.
pub open spec fn language_value(v: Option<u16>) -> Option<MapValueView> {
    match v {
        Some(l) => Some(MapValueView::Integer(l as int)),
        None => None,
    }
}

/// An added-images field's value in the comparison map: their addresses.
pub open spec fn images_value(v: Option<Vec<NewOrCachedImage>>) -> Option<MapValueView> {
    match v {
        Some(images) => Some(MapValueView::Texts(image_urls(images@))),
        None => None,
    }
}

/// A removed-images field's value in the comparison map: their thumbnail
/// addresses.
pub open spec fn thumbnails_value(v: Option<Vec<ImageId>>) -> Option<MapValueView> {
    match v {
        Some(ids) => Some(MapValueView::Texts(thumbnail_urls(ids@))),
        None => None,
    }
}

fn push_rating<F>(map: &mut Vec<(F, MapValue)>, field: F, value: Option<u64>)
    ensures
        entries_view(final(map)@) == entries_view(old(map)@) + entry_if(field, rating_value(value)),
{
    match value {
        Some(r) => push_entry(map, field, MapValue::Rating(r)),
        None => {
            assert(entries_view(map@) =~= entries_view(map@) + Seq::<(F, MapValueView)>::empty());
        },
    }
}

fn push_flag<F>(map: &mut Vec<(F, MapValue)>, field: F, value: Option<bool>)
    ensures
        entries_view(final(map)@) == entries_view(old(map)@) + entry_if(field, flag_value(value)),
{
    match value {
        Some(b) => push_entry(map, field, MapValue::Flag(b)),
        None => {
            assert(entries_view(map@) =~= entries_view(map@) + Seq::<(F, MapValueView)>::empty());
        },
    }
}

fn push_time<F>(map: &mut Vec<(F, MapValue)>, field: F, value: Option<i64>)
    ensures
        entries_view(final(map)@) == entries_view(old(map)@) + entry_if(field, time_value(value)),
{
    match value {
        Some(t) => push_entry(map, field, MapValue::Integer(t)),
        None => {
            assert(entries_view(map@) =~= entries_view(map@) + Seq::<(F, MapValueView)>::empty());
        },
    }
}

fn push_language<F>(map: &mut Vec<(F, MapValue)>, field: F, value: Option<u16>)
    ensures
        entries_view(final(map)@) == entries_view(old(map)@) + entry_if(field, language_value(value)),
{
    match value {
        Some(l) => push_entry(map, field, MapValue::Integer(l as i64)),
        None => {
            assert(entries_view(map@) =~= entries_view(map@) + Seq::<(F, MapValueView)>::empty());
        },
    }
}

/// The fields of a book edit that the comparison view shows, in its order.
#[derive(Debug, Clone, Copy, PartialEq, Eq, Structural)]
pub enum BookField {
    Title,
    CleanTitle,
    Description,
    Rating,
    Isbn10,
    Isbn13,
    IsPublic,
    AvailableAt,
    Language,
    Publisher,
    DisplayPersonId,
    UpdatedPeople,
    AddedPeople,
    RemovedPeople,
    AddedTags,
    RemovedTags,
    AddedImages,
    RemovedImages,
}

/// The rows of the comparison view of two book edits: each field with how
/// its values are shown.
pub open spec fn book_rows() -> Seq<(BookField, CompareDisplay)> {
    seq![
        (BookField::Title, CompareDisplay::Text),
        (BookField::CleanTitle, CompareDisplay::Text),
        (BookField::Description, CompareDisplay::Text),
        (BookField::Rating, CompareDisplay::Text),
        (BookField::Isbn10, CompareDisplay::Text),
        (BookField::Isbn13, CompareDisplay::Text),
        (BookField::IsPublic, CompareDisplay::Text),
        (BookField::AvailableAt, CompareDisplay::Text),
        (BookField::Language, CompareDisplay::Text),
        (BookField::Publisher, CompareDisplay::Text),
        (BookField::DisplayPersonId, CompareDisplay::Text),
        (BookField::UpdatedPeople, CompareDisplay::Text),
        (BookField::AddedPeople, CompareDisplay::Text),
        (BookField::RemovedPeople, CompareDisplay::Text),
        (BookField::AddedTags, CompareDisplay::Text),
        (BookField::RemovedTags, CompareDisplay::Text),
        (BookField::AddedImages, CompareDisplay::Image),
        (BookField::RemovedImages, CompareDisplay::Image),
    ]
}

impl BookField {
    /// The rows of the comparison view of two book edits, in order.
    pub fn rows() -> (res: Vec<(BookField, CompareDisplay)>)
        ensures
            res@ == book_rows(),
    {
        let res = vec![
            (BookField::Title, CompareDisplay::Text),
            (BookField::CleanTitle, CompareDisplay::Text),
            (BookField::Description, CompareDisplay::Text),
            (BookField::Rating, CompareDisplay::Text),
            (BookField::Isbn10, CompareDisplay::Text),
            (BookField::Isbn13, CompareDisplay::Text),
            (BookField::IsPublic, CompareDisplay::Text),
            (BookField::AvailableAt, CompareDisplay::Text),
            (BookField::Language, CompareDisplay::Text),
            (BookField::Publisher, CompareDisplay::Text),
            (BookField::DisplayPersonId, CompareDisplay::Text),
            (BookField::UpdatedPeople, CompareDisplay::Text),
            (BookField::AddedPeople, CompareDisplay::Text),
            (BookField::RemovedPeople, CompareDisplay::Text),
            (BookField::AddedTags, CompareDisplay::Text),
            (BookField::RemovedTags, CompareDisplay::Text),
            (BookField::AddedImages, CompareDisplay::Image),
            (BookField::RemovedImages, CompareDisplay::Image),
        ];
        assert(res@ =~= book_rows());
        res
    }

    /// The key under which the field's value is stored.
    pub fn key(&self) -> (res: &'static str)
        ensures
            res@ == book_field_key(*self),
    {
        match self {
            BookField::Title => "title",
            BookField::CleanTitle => "clean_title",
            BookField::Description => "description",
            BookField::Rating => "rating",
            BookField::Isbn10 => "isbn_10",
            BookField::Isbn13 => "isbn_13",
            BookField::IsPublic => "is_public",
            BookField::AvailableAt => "available_at",
            BookField::Language => "language",
            BookField::Publisher => "publisher",
            BookField::DisplayPersonId => "display_person_id",
            BookField::UpdatedPeople => "updated_people",
            BookField::AddedPeople => "added_people",
            BookField::RemovedPeople => "removed_people",
            BookField::AddedTags => "added_tags",
            BookField::RemovedTags => "removed_tags",
            BookField::AddedImages => "added_images",
            BookField::RemovedImages => "removed_images",
        }
    }

    /// The title of the field's row.
    pub fn label(&self) -> (res: &'static str)
        ensures
            res@ == book_field_label(*self),
    {
        match self {
            BookField::Title => "Title",
            BookField::CleanTitle => "Clean Title",
            BookField::Description => "Description",
            BookField::Rating => "Rating",
            BookField::Isbn10 => "ISBN 10",
            BookField::Isbn13 => "ISBN 13",
            BookField::IsPublic => "Is Public",
            BookField::AvailableAt => "Available At",
            BookField::Language => "Language",
            BookField::Publisher => "Publisher",
            BookField::DisplayPersonId => "Display Author ID",
            BookField::UpdatedPeople => "Updated People",
            BookField::AddedPeople => "Added People",
            BookField::RemovedPeople => "Removed People",
            BookField::AddedTags => "Added Tags",
            BookField::RemovedTags => "Removed Tags",
            BookField::AddedImages => "Added Images",
            BookField::RemovedImages => "Removed Images",
        }
    }
}

/// The key under which a book field's value is stored.
pub open spec fn book_field_key(f: BookField) -> Seq<char> {
    match f {
        BookField::Title => "title"@,
        BookField::CleanTitle => "clean_title"@,
        BookField::Description => "description"@,
        BookField::Rating => "rating"@,
        BookField::Isbn10 => "isbn_10"@,
        BookField::Isbn13 => "isbn_13"@,
        BookField::IsPublic => "is_public"@,
        BookField::AvailableAt => "available_at"@,
        BookField::Language => "language"@,
        BookField::Publisher => "publisher"@,
        BookField::DisplayPersonId => "display_person_id"@,
        BookField::UpdatedPeople => "updated_people"@,
        BookField::AddedPeople => "added_people"@,
        BookField::RemovedPeople => "removed_people"@,
        BookField::AddedTags => "added_tags"@,
        BookField::RemovedTags => "removed_tags"@,
        BookField::AddedImages => "added_images"@,
        BookField::RemovedImages => "removed_images"@,
    }
}

/// The title of a book field's row.
pub open spec fn book_field_label(f: BookField) -> Seq<char> {
    match f {
        BookField::Title => "Title"@,
        BookField::CleanTitle => "Clean Title"@,
        BookField::Description => "Description"@,
        BookField::Rating => "Rating"@,
        BookField::Isbn10 => "ISBN 10"@,
        BookField::Isbn13 => "ISBN 13"@,
        BookField::IsPublic => "Is Public"@,
        BookField::AvailableAt => "Available At"@,
        BookField::Language => "Language"@,
        BookField::Publisher => "Publisher"@,
        BookField::DisplayPersonId => "Display Author ID"@,
        BookField::UpdatedPeople => "Updated People"@,
        BookField::AddedPeople => "Added People"@,
        BookField::RemovedPeople => "Removed People"@,
        BookField::AddedTags => "Added Tags"@,
        BookField::RemovedTags => "Removed Tags"@,
        BookField::AddedImages => "Added Images"@,
        BookField::RemovedImages => "Removed Images"@,
    }
}

/// The comparison map of a book edit: its title, clean title, description,
/// rating, visibility, availability date, language and publisher where set,
/// and the addresses of its added and removed images. The people, tag and
/// ISBN lists and the display person are not part of it.
pub open spec fn book_map(e: BookEdit) -> Seq<(BookField, MapValueView)> {
    entry_if(BookField::Title, text_value(e.title))
        + entry_if(BookField::CleanTitle, text_value(e.clean_title))
        + entry_if(BookField::Description, text_value(e.description))
        + entry_if(BookField::Rating, rating_value(e.rating))
        + entry_if(BookField::IsPublic, flag_value(e.is_public))
        + entry_if(BookField::AvailableAt, time_value(e.available_at))
        + entry_if(BookField::Language, language_value(e.language))
        + entry_if(BookField::Publisher, text_value(e.publisher))
        + entry_if(BookField::AddedImages, images_value(e.added_images))
        + entry_if(BookField::RemovedImages, thumbnails_value(e.removed_images))
}

impl BookEdit {
    /// The values of the edit that the comparison view compares, by field.
    pub fn create_map(&self) -> (res: Vec<(BookField, MapValue)>)
        ensures
            entries_view(res@) == book_map(*self),
    {
        let mut map: Vec<(BookField, MapValue)> = Vec::new();
        push_text(&mut map, BookField::Title, &self.title);
        assert(entries_view(map@) =~= entry_if(BookField::Title, text_value(self.title)));
        push_text(&mut map, BookField::CleanTitle, &self.clean_title);
        push_text(&mut map, BookField::Description, &self.description);
        push_rating(&mut map, BookField::Rating, self.rating);
        push_flag(&mut map, BookField::IsPublic, self.is_public);
        push_time(&mut map, BookField::AvailableAt, self.available_at);
        push_language(&mut map, BookField::Language, self.language);
        push_text(&mut map, BookField::Publisher, &self.publisher);
        push_images(&mut map, BookField::AddedImages, &self.added_images);
        push_thumbnails(&mut map, BookField::RemovedImages, &self.removed_images);
        map
    }
}

/// The fields of a person edit that the comparison view shows, in its order.
#[derive(Debug, Clone, Copy, PartialEq, Eq, Structural)]
pub enum PersonField {
    Name,
    Description,
    BirthDate,
    AddedImages,
    RemovedImages,
}

/// The rows of the comparison view of two person edits: each field with how
/// its values are shown.
pub open spec fn person_rows() -> Seq<(PersonField, CompareDisplay)> {
    seq![
        (PersonField::Name, CompareDisplay::Text),
        (PersonField::Description, CompareDisplay::Text),
        (PersonField::BirthDate, CompareDisplay::Text),
        (PersonField::AddedImages, CompareDisplay::Image),
        (PersonField::RemovedImages, CompareDisplay::Image),
    ]
}

/// The key under which a person field's value is stored.
pub open spec fn person_field_key(f: PersonField) -> Seq<char> {
    match f {
        PersonField::Name => "name"@,
        PersonField::Description => "description"@,
        PersonField::BirthDate => "birth_date"@,
        PersonField::AddedImages => "added_images"@,
        PersonField::RemovedImages => "removed_images"@,
    }
}

/// The title of a person field's row.
pub open spec fn person_field_label(f: PersonField) -> Seq<char> {
    match f {
        PersonField::Name => "Name"@,
        PersonField::Description => "Description"@,
        PersonField::BirthDate => "Birthday"@,
        PersonField::AddedImages => "Added Images"@,
        PersonField::RemovedImages => "Removed Images"@,
    }
}

impl PersonField {
    /// The rows of the comparison view of two person edits, in order.
    pub fn rows() -> (res: Vec<(PersonField, CompareDisplay)>)
        ensures
            res@ == person_rows(),
    {
        let res = vec![
            (PersonField::Name, CompareDisplay::Text),
            (PersonField::Description, CompareDisplay::Text),
            (PersonField::BirthDate, CompareDisplay::Text),
            (PersonField::AddedImages, CompareDisplay::Image),
            (PersonField::RemovedImages, CompareDisplay::Image),
        ];
        assert(res@ =~= person_rows());
        res
    }

    /// The key under which the field's value is stored.
    pub fn key(&self) -> (res: &'static str)
        ensures
            res@ == person_field_key(*self),
    {
        match self {
            PersonField::Name => "name",
            PersonField::Description => "description",
            PersonField::BirthDate => "birth_date",
            PersonField::AddedImages => "added_images",
            PersonField::RemovedImages => "removed_images",
        }
    }

    /// The title of the field's row.
    pub fn label(&self) -> (res: &'static str)
        ensures
            res@ == person_field_label(*self),
    {
        match self {
            PersonField::Name => "Name",
            PersonField::Description => "Description",
            PersonField::BirthDate => "Birthday",
            PersonField::AddedImages => "Added Images",
            PersonField::RemovedImages => "Removed Images",
        }
    }
}

/// The comparison map of a person edit: its name, description and birth
/// date where set, and the addresses of its added and removed images.
pub open spec fn person_map(e: PersonEdit) -> Seq<(PersonField, MapValueView)> {
    entry_if(PersonField::Name, text_value(e.name))
        + entry_if(PersonField::Description, text_value(e.description))
        + entry_if(PersonField::BirthDate, text_value(e.birth_date))
        + entry_if(PersonField::AddedImages, images_value(e.added_images))
        + entry_if(PersonField::RemovedImages, thumbnails_value(e.removed_images))
}

impl PersonEdit {
    /// The values of the edit that the comparison view compares, by field.
    pub fn create_map(&self) -> (res: Vec<(PersonField, MapValue)>)
        ensures
            entries_view(res@) == person_map(*self),
    {
        let mut map: Vec<(PersonField, MapValue)> = Vec::new();
        push_text(&mut map, PersonField::Name, &self.name);
        assert(entries_view(map@) =~= entry_if(PersonField::Name, text_value(self.name)));
        push_text(&mut map, PersonField::Description, &self.description);
        push_text(&mut map, PersonField::BirthDate, &self.birth_date);
        push_images(&mut map, PersonField::AddedImages, &self.added_images);
        push_thumbnails(&mut map, PersonField::RemovedImages, &self.removed_images);
        map
    }
}

/// The position of a book field's row in the comparison view.
pub open spec fn book_row_index(f: BookField) -> int {
    match f {
        BookField::Title => 0,
        BookField::CleanTitle => 1,
        BookField::Description => 2,
        BookField::Rating => 3,
        BookField::Isbn10 => 4,
        BookField::Isbn13 => 5,
        BookField::IsPublic => 6,
        BookField::AvailableAt => 7,
        BookField::Language => 8,
        BookField::Publisher => 9,
        BookField::DisplayPersonId => 10,
        BookField::UpdatedPeople => 11,
        BookField::AddedPeople => 12,
        BookField::RemovedPeople => 13,
        BookField::AddedTags => 14,
        BookField::RemovedTags => 15,
        BookField::AddedImages => 16,
        BookField::RemovedImages => 17,
    }
}

/// The position of a person field's row in the comparison view.
pub open spec fn person_row_index(f: PersonField) -> int {
    match f {
        PersonField::Name => 0,
        PersonField::Description => 1,
        PersonField::BirthDate => 2,
        PersonField::AddedImages => 3,
        PersonField::RemovedImages => 4,
    }
}

/// The comparison view of book edits has a row for the field.
pub open spec fn has_book_row(f: BookField) -> bool {
    exists|k: int| 0 <= k < book_rows().len() && #[trigger] book_rows()[k].0 == f
}

/// The comparison view of person edits has a row for the field.
pub open spec fn has_person_row(f: PersonField) -> bool {
    exists|k: int| 0 <= k < person_rows().len() && #[trigger] person_rows()[k].0 == f
}

/// The fields of the entries come in strictly increasing positions, all
/// below `bound`.
pub open spec fn ordered_below<F>(s: Seq<(F, MapValueView)>, pos: spec_fn(F) -> int, bound: int) -> bool {
    &&& forall|i: int, j: int| 0 <= i < j < s.len() ==> pos(s[i].0) < pos(s[j].0)
    &&& forall|i: int| 0 <= i < s.len() ==> pos(#[trigger] s[i].0) < bound
}

proof fn lemma_ordered_append<F>(
    s: Seq<(F, MapValueView)>,
    pos: spec_fn(F) -> int,
    bound: int,
    field: F,
    value: Option<MapValueView>,
)
    requires
        ordered_below(s, pos, bound),
        bound <= pos(field),
    ensures
        ordered_below(s + entry_if(field, value), pos, pos(field) + 1),
{
    let t = s + entry_if(field, value);
    assert forall|i: int| 0 <= i < t.len() implies pos(#[trigger] t[i].0) < pos(field) + 1 by {
        if i >= s.len() {
            assert(t[i] == entry_if(field, value)[i - s.len()]);
        }
    }
    assert forall|i: int, j: int| 0 <= i < j < t.len() implies pos(t[i].0) < pos(t[j].0) by {
        if j >= s.len() {
            assert(t[j] == entry_if(field, value)[j - s.len()]);
            assert(t[i] == s[i]);
            assert(pos(s[i].0) < bound);
        } else {
            assert(t[i] == s[i]);
            assert(t[j] == s[j]);
        }
    }
}

proof fn lemma_book_map_ordered(e: BookEdit)
    ensures
        ordered_below(book_map(e), |f: BookField| book_row_index(f), 18),
{
    let pos = |f: BookField| book_row_index(f);
    let e0 = Seq::<(BookField, MapValueView)>::empty();
    lemma_ordered_append(e0, pos, 0, BookField::Title, text_value(e.title));
    assert(e0 + entry_if(BookField::Title, text_value(e.title)) =~= entry_if(
        BookField::Title,
        text_value(e.title),
    ));
    let s1 = entry_if(BookField::Title, text_value(e.title));
    lemma_ordered_append(s1, pos, 1, BookField::CleanTitle, text_value(e.clean_title));
    let s2 = s1 + entry_if(BookField::CleanTitle, text_value(e.clean_title));
    lemma_ordered_append(s2, pos, 2, BookField::Description, text_value(e.description));
    let s3 = s2 + entry_if(BookField::Description, text_value(e.description));
    lemma_ordered_append(s3, pos, 3, BookField::Rating, rating_value(e.rating));
    let s4 = s3 + entry_if(BookField::Rating, rating_value(e.rating));
    lemma_ordered_append(s4, pos, 4, BookField::IsPublic, flag_value(e.is_public));
    let s5 = s4 + entry_if(BookField::IsPublic, flag_value(e.is_public));
    lemma_ordered_append(s5, pos, 7, BookField::AvailableAt, time_value(e.available_at));
    let s6 = s5 + entry_if(BookField::AvailableAt, time_value(e.available_at));
    lemma_ordered_append(s6, pos, 8, BookField::Language, language_value(e.language));
    let s7 = s6 + entry_if(BookField::Language, language_value(e.language));
    lemma_ordered_append(s7, pos, 9, BookField::Publisher, text_value(e.publisher));
    let s8 = s7 + entry_if(BookField::Publisher, text_value(e.publisher));
    lemma_ordered_append(s8, pos, 10, BookField::AddedImages, images_value(e.added_images));
    let s9 = s8 + entry_if(BookField::AddedImages, images_value(e.added_images));
    lemma_ordered_append(
        s9,
        pos,
        17,
        BookField::RemovedImages,
        thumbnails_value(e.removed_images),
    );
}

proof fn lemma_book_row(f: BookField)
    ensures
        has_book_row(f),
{
    assert(book_rows()[book_row_index(f)].0 == f);
}

/// No field appears twice in the comparison map of a book edit, and each
/// field in it has its row in the comparison view of book edits.
pub proof fn law_book_map_fields(e: BookEdit)
    ensures
        forall|i: int, j: int|
            0 <= i < j < book_map(e).len() ==> book_map(e)[i].0 != book_map(e)[j].0,
        forall|i: int| 0 <= i < book_map(e).len() ==> has_book_row(#[trigger] book_map(e)[i].0),
{
    lemma_book_map_ordered(e);
    let m = book_map(e);
    assert forall|i: int| 0 <= i < m.len() implies has_book_row(#[trigger] m[i].0) by {
        lemma_book_row(m[i].0);
    }
}

/// No field appears twice in the comparison map of a person edit, and each
/// field in it has its row in the comparison view of person edits.
pub proof fn law_person_map_fields(e: PersonEdit)
    ensures
        forall|i: int, j: int|
            0 <= i < j < person_map(e).len() ==> person_map(e)[i].0 != person_map(e)[j].0,
        forall|i: int| 0 <= i < person_map(e).len() ==> has_person_row(#[trigger] person_map(e)[i].0),
{
    let pos = |f: PersonField| person_row_index(f);
    let e0 = Seq::<(PersonField, MapValueView)>::empty();
    assert(ordered_below(e0, pos, 0));
    lemma_ordered_append(e0, pos, 0, PersonField::Name, text_value(e.name));
    assert(e0 + entry_if(PersonField::Name, text_value(e.name)) =~= entry_if(
        PersonField::Name,
        text_value(e.name),
    ));
    let s1 = entry_if(PersonField::Name, text_value(e.name));
    lemma_ordered_append(s1, pos, 1, PersonField::Description, text_value(e.description));
    let s2 = s1 + entry_if(PersonField::Description, text_value(e.description));
    lemma_ordered_append(s2, pos, 2, PersonField::BirthDate, text_value(e.birth_date));
    let s3 = s2 + entry_if(PersonField::BirthDate, text_value(e.birth_date));
    lemma_ordered_append(s3, pos, 3, PersonField::AddedImages, images_value(e.added_images));
    let s4 = s3 + entry_if(PersonField::AddedImages, images_value(e.added_images));
    lemma_ordered_append(
        s4,
        pos,
        4,
        PersonField::RemovedImages,
        thumbnails_value(e.removed_images),
    );
    let m = person_map(e);
    assert forall|i: int| 0 <= i < m.len() implies has_person_row(#[trigger] m[i].0) by {
        let k = person_row_index(m[i].0);
        assert(person_rows()[k].0 == m[i].0);
    }
}

/// An edit that sets nothing has an empty comparison map.
pub proof fn law_empty_edit_empty_map(b: BookEdit, p: PersonEdit)
    ensures
        crate::book_edit::book_edit_empty(b) ==> book_map(b).len() == 0,
        (p.name is None && p.description is None && p.birth_date is None
            && p.added_images is None && p.removed_images is None) ==> person_map(p).len() == 0,
{
}

/// The map holds an entry for field `f` with value `v`.
pub open spec fn has_entry<F>(m: Seq<(F, MapValueView)>, f: F, v: MapValueView) -> bool {
    exists|i: int| 0 <= i < m.len() && m[i] == (f, v)
}

proof fn lemma_has_entry_append<F>(
    a: Seq<(F, MapValueView)>,
    field: F,
    value: Option<MapValueView>,
    f: F,
    v: MapValueView,
)
    ensures
        has_entry(a + entry_if(field, value), f, v) <==> (has_entry(a, f, v) || (field == f
            && value == Some(v))),
{
    let t = a + entry_if(field, value);
    if has_entry(t, f, v) {
        let i = choose|i: int| 0 <= i < t.len() && t[i] == (f, v);
        if i < a.len() {
            assert(a[i] == t[i]);
        } else {
            assert(t[i] == entry_if(field, value)[i - a.len()]);
        }
    }
    if has_entry(a, f, v) {
        let i = choose|i: int| 0 <= i < a.len() && a[i] == (f, v);
        assert(t[i] == a[i]);
    }
    if field == f && value == Some(v) {
        assert(t[a.len() as int] == (f, v));
    }
}

proof fn lemma_book_map_has_entry(e: BookEdit, f: BookField, v: MapValueView)
    ensures
        has_entry(book_map(e), f, v) <==> {
            ||| f == BookField::Title && text_value(e.title) == Some(v)
            ||| f == BookField::CleanTitle && text_value(e.clean_title) == Some(v)
            ||| f == BookField::Description && text_value(e.description) == Some(v)
            ||| f == BookField::Rating && rating_value(e.rating) == Some(v)
            ||| f == BookField::IsPublic && flag_value(e.is_public) == Some(v)
            ||| f == BookField::AvailableAt && time_value(e.available_at) == Some(v)
            ||| f == BookField::Language && language_value(e.language) == Some(v)
            ||| f == BookField::Publisher && text_value(e.publisher) == Some(v)
            ||| f == BookField::AddedImages && images_value(e.added_images) == Some(v)
            ||| f == BookField::RemovedImages && thumbnails_value(e.removed_images) == Some(v)
        },
{
    let e0 = Seq::<(BookField, MapValueView)>::empty();
    lemma_has_entry_append(e0, BookField::Title, text_value(e.title), f, v);
    assert(e0 + entry_if(BookField::Title, text_value(e.title)) =~= entry_if(
        BookField::Title,
        text_value(e.title),
    ));
    let s1 = entry_if(BookField::Title, text_value(e.title));
    lemma_has_entry_append(s1, BookField::CleanTitle, text_value(e.clean_title), f, v);
    let s2 = s1 + entry_if(BookField::CleanTitle, text_value(e.clean_title));
    lemma_has_entry_append(s2, BookField::Description, text_value(e.description), f, v);
    let s3 = s2 + entry_if(BookField::Description, text_value(e.description));
    lemma_has_entry_append(s3, BookField::Rating, rating_value(e.rating), f, v);
    let s4 = s3 + entry_if(BookField::Rating, rating_value(e.rating));
    lemma_has_entry_append(s4, BookField::IsPublic, flag_value(e.is_public), f, v);
    let s5 = s4 + entry_if(BookField::IsPublic, flag_value(e.is_public));
    lemma_has_entry_append(s5, BookField::AvailableAt, time_value(e.available_at), f, v);
    let s6 = s5 + entry_if(BookField::AvailableAt, time_value(e.available_at));
    lemma_has_entry_append(s6, BookField::Language, language_value(e.language), f, v);
    let s7 = s6 + entry_if(BookField::Language, language_value(e.language));
    lemma_has_entry_append(s7, BookField::Publisher, text_value(e.publisher), f, v);
    let s8 = s7 + entry_if(BookField::Publisher, text_value(e.publisher));
    lemma_has_entry_append(s8, BookField::AddedImages, images_value(e.added_images), f, v);
    let s9 = s8 + entry_if(BookField::AddedImages, images_value(e.added_images));
    lemma_has_entry_append(s9, BookField::RemovedImages, thumbnails_value(e.removed_images), f, v);
}

proof fn lemma_book_map_has_entry_all(e: BookEdit)
    ensures
        forall|f: BookField, v: MapValueView|
            #[trigger] has_entry(book_map(e), f, v) <==> {
                ||| f == BookField::Title && text_value(e.title) == Some(v)
                ||| f == BookField::CleanTitle && text_value(e.clean_title) == Some(v)
                ||| f == BookField::Description && text_value(e.description) == Some(v)
                ||| f == BookField::Rating && rating_value(e.rating) == Some(v)
                ||| f == BookField::IsPublic && flag_value(e.is_public) == Some(v)
                ||| f == BookField::AvailableAt && time_value(e.available_at) == Some(v)
                ||| f == BookField::Language && language_value(e.language) == Some(v)
                ||| f == BookField::Publisher && text_value(e.publisher) == Some(v)
                ||| f == BookField::AddedImages && images_value(e.added_images) == Some(v)
                ||| f == BookField::RemovedImages && thumbnails_value(e.removed_images) == Some(v)
            },
{
    assert forall|f: BookField, v: MapValueView|
        #[trigger] has_entry(book_map(e), f, v) <==> {
            ||| f == BookField::Title && text_value(e.title) == Some(v)
            ||| f == BookField::CleanTitle && text_value(e.clean_title) == Some(v)
            ||| f == BookField::Description && text_value(e.description) == Some(v)
            ||| f == BookField::Rating && rating_value(e.rating) == Some(v)
            ||| f == BookField::IsPublic && flag_value(e.is_public) == Some(v)
            ||| f == BookField::AvailableAt && time_value(e.available_at) == Some(v)
            ||| f == BookField::Language && language_value(e.language) == Some(v)
            ||| f == BookField::Publisher && text_value(e.publisher) == Some(v)
            ||| f == BookField::AddedImages && images_value(e.added_images) == Some(v)
            ||| f == BookField::RemovedImages && thumbnails_value(e.removed_images) == Some(v)
        } by {
        lemma_book_map_has_entry(e, f, v);
    }
}

/// What the comparison map of a book edit holds, field by field: the title,
/// clean title, description and publisher as their text, the rating by its
/// bits, the visibility as a flag, the availability date and the language as
/// numbers, and the added and removed images as their addresses, each exactly
/// when the edit sets it; and nothing for the ISBN rows, the display person,
/// the people lists or the tag lists.
pub proof fn law_book_map_entries(e: BookEdit)
    ensures
        forall|v: MapValueView|
            has_entry(book_map(e), BookField::Title, v) <==> (e.title matches Some(t)
                && v == MapValueView::Text(t@)),
        forall|v: MapValueView|
            has_entry(book_map(e), BookField::CleanTitle, v) <==> (e.clean_title matches Some(t)
                && v == MapValueView::Text(t@)),
        forall|v: MapValueView|
            has_entry(book_map(e), BookField::Description, v) <==> (e.description matches Some(t)
                && v == MapValueView::Text(t@)),
        forall|v: MapValueView|
            has_entry(book_map(e), BookField::Publisher, v) <==> (e.publisher matches Some(t)
                && v == MapValueView::Text(t@)),
        forall|v: MapValueView|
            has_entry(book_map(e), BookField::Rating, v) <==> (e.rating matches Some(r) && v
                == MapValueView::Rating(r)),
        forall|v: MapValueView|
            has_entry(book_map(e), BookField::IsPublic, v) <==> (e.is_public matches Some(b) && v
                == MapValueView::Flag(b)),
        forall|v: MapValueView|
            has_entry(book_map(e), BookField::AvailableAt, v) <==> (e.available_at matches Some(t)
                && v == MapValueView::Integer(t as int)),
        forall|v: MapValueView|
            has_entry(book_map(e), BookField::Language, v) <==> (e.language matches Some(l) && v
                == MapValueView::Integer(l as int)),
        forall|v: MapValueView|
            has_entry(book_map(e), BookField::AddedImages, v) <==> (e.added_images matches Some(
                images,
            ) && v == MapValueView::Texts(
                images@.map_values(|i: NewOrCachedImage| image_url(i)),
            )),
        forall|v: MapValueView|
            has_entry(book_map(e), BookField::RemovedImages, v) <==> (e.removed_images matches Some(
                ids,
            ) && v == MapValueView::Texts(
                ids@.map_values(|id: ImageId| image_url(NewOrCachedImage::Id(id))),
            )),
        forall|v: MapValueView|
            !has_entry(book_map(e), BookField::Isbn10, v) && !has_entry(
                book_map(e),
                BookField::Isbn13,
                v,
            ) && !has_entry(book_map(e), BookField::DisplayPersonId, v) && !has_entry(
                book_map(e),
                BookField::UpdatedPeople,
                v,
            ) && !has_entry(book_map(e), BookField::AddedPeople, v) && !has_entry(
                book_map(e),
                BookField::RemovedPeople,
                v,
            ) && !has_entry(book_map(e), BookField::AddedTags, v) && !has_entry(
                book_map(e),
                BookField::RemovedTags,
                v,
            ),
{
    lemma_book_map_has_entry_all(e);
}

proof fn lemma_person_map_has_entry(e: PersonEdit, f: PersonField, v: MapValueView)
    ensures
        has_entry(person_map(e), f, v) <==> {
            ||| f == PersonField::Name && text_value(e.name) == Some(v)
            ||| f == PersonField::Description && text_value(e.description) == Some(v)
            ||| f == PersonField::BirthDate && text_value(e.birth_date) == Some(v)
            ||| f == PersonField::AddedImages && images_value(e.added_images) == Some(v)
            ||| f == PersonField::RemovedImages && thumbnails_value(e.removed_images) == Some(v)
        },
{
    let e0 = Seq::<(PersonField, MapValueView)>::empty();
    lemma_has_entry_append(e0, PersonField::Name, text_value(e.name), f, v);
    assert(e0 + entry_if(PersonField::Name, text_value(e.name)) =~= entry_if(
        PersonField::Name,
        text_value(e.name),
    ));
    let s1 = entry_if(PersonField::Name, text_value(e.name));
    lemma_has_entry_append(s1, PersonField::Description, text_value(e.description), f, v);
    let s2 = s1 + entry_if(PersonField::Description, text_value(e.description));
    lemma_has_entry_append(s2, PersonField::BirthDate, text_value(e.birth_date), f, v);
    let s3 = s2 + entry_if(PersonField::BirthDate, text_value(e.birth_date));
    lemma_has_entry_append(s3, PersonField::AddedImages, images_value(e.added_images), f, v);
    let s4 = s3 + entry_if(PersonField::AddedImages, images_value(e.added_images));
    lemma_has_entry_append(s4, PersonField::RemovedImages, thumbnails_value(e.removed_images), f, v);
}

/// What the comparison map of a person edit holds, field by field: the name,
/// description and birth date as their text, and the added and removed images
/// as their addresses, each exactly when the edit sets it.
pub proof fn law_person_map_entries(e: PersonEdit)
    ensures
        forall|v: MapValueView|
            has_entry(person_map(e), PersonField::Name, v) <==> (e.name matches Some(t) && v
                == MapValueView::Text(t@)),
        forall|v: MapValueView|
            has_entry(person_map(e), PersonField::Description, v) <==> (e.description matches Some(
                t,
            ) && v == MapValueView::Text(t@)),
        forall|v: MapValueView|
            has_entry(person_map(e), PersonField::BirthDate, v) <==> (e.birth_date matches Some(t)
                && v == MapValueView::Text(t@)),
        forall|v: MapValueView|
            has_entry(person_map(e), PersonField::AddedImages, v) <==> (e.added_images matches Some(
                images,
            ) && v == MapValueView::Texts(
                images@.map_values(|i: NewOrCachedImage| image_url(i)),
            )),
        forall|v: MapValueView|
            has_entry(person_map(e), PersonField::RemovedImages, v) <==> (
            e.removed_images matches Some(ids) && v == MapValueView::Texts(
                ids@.map_values(|id: ImageId| image_url(NewOrCachedImage::Id(id))),
            )),
{
    assert forall|f: PersonField, v: MapValueView|
        #[trigger] has_entry(person_map(e), f, v) <==> {
            ||| f == PersonField::Name && text_value(e.name) == Some(v)
            ||| f == PersonField::Description && text_value(e.description) == Some(v)
            ||| f == PersonField::BirthDate && text_value(e.birth_date) == Some(v)
            ||| f == PersonField::AddedImages && images_value(e.added_images) == Some(v)
            ||| f == PersonField::RemovedImages && thumbnails_value(e.removed_images) == Some(v)
        } by {
        lemma_person_map_has_entry(e, f, v);
    }
}

} // verus!
