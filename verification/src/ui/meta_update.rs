use vstd::prelude::*;
use crate::book_edit::{book_edit_empty, opt_view, BookEdit, NewOrCachedImage};

verus! {

/// A field that the book update popup lets the reader take from either side.
#[derive(Debug, Clone, Copy, PartialEq, Eq, Structural)]
pub enum UpdateValue {
    Title,
    Description,
    Rating,
    AvailableAt,
    AddedImages,
}

/// The right side's value where `is_set`, else the left side's.
pub open spec fn pick<T>(is_set: bool, left: T, right: T) -> T {
    if is_set {
        right
    } else {
        left
    }
}

/// The first value where it is present, else the second.
pub open spec fn or_else<T>(first: Option<T>, second: Option<T>) -> Option<T> {
    match first {
        Some(v) => Some(v),
        None => second,
    }
}

/// What choosing a side for `value` does to the popup's edit: `before`
/// becomes `after`, the field taking the value of the chosen side and every
/// other field staying.
pub open spec fn update_post(
    before: BookEdit,
    after: BookEdit,
    value: UpdateValue,
    is_set: bool,
    left: BookEdit,
    right: BookEdit,
) -> bool {
    match value {
        UpdateValue::Title => after == BookEdit {
            title: pick(is_set, left.title, right.title),
            ..before
        },
        UpdateValue::Description => after == BookEdit {
            description: pick(is_set, left.description, right.description),
            ..before
        },
        UpdateValue::Rating => after == BookEdit {
            rating: pick(is_set, left.rating, right.rating),
            ..before
        },
        UpdateValue::AvailableAt => after == BookEdit {
            available_at: pick(is_set, left.available_at, right.available_at),
            ..before
        },
        UpdateValue::AddedImages => {
            &&& opt_view(after.added_images) == opt_view(
                pick(is_set, left.added_images, right.added_images),
            )
            &&& after == BookEdit { added_images: after.added_images, ..before }
        },
    }
}

/// The edit that saving the popup hands on, given the popup's edit `edits`
/// and the left side `left`: title, clean title, description, rating,
/// availability date and images from the popup's edit where it has them,
/// else from the left side; visibility, language and publisher from the
/// popup's edit; nothing else.
pub open spec fn submitted(edits: BookEdit, left: BookEdit, res: BookEdit) -> bool {
    &&& res.title == or_else(edits.title, left.title)
    &&& res.clean_title == or_else(edits.clean_title, left.clean_title)
    &&& res.description == or_else(edits.description, left.description)
    &&& res.rating == or_else(edits.rating, left.rating)
    &&& res.available_at == or_else(edits.available_at, left.available_at)
    &&& res.is_public == edits.is_public
    &&& res.language == edits.language
    &&& res.publisher == edits.publisher
    &&& opt_view(res.added_images) == opt_view(or_else(edits.added_images, left.added_images))
    &&& res.display_person_id is None
    &&& res.updated_people is None
    &&& res.added_people is None
    &&& res.removed_people is None
    &&& res.added_tags is None
    &&& res.removed_tags is None
    &&& res.removed_images is None
    &&& res.added_isbns is None
    &&& res.removed_isbns is None
}

fn copy_text(o: &Option<String>) -> (res: Option<String>)
    ensures
        res == *o,
{
    match o {
        Some(s) => Some(s.clone()),
        None => None,
    }
}

fn copy_image(image: &NewOrCachedImage) -> (res: NewOrCachedImage)
    ensures
        res == *image,
{
    match image {
        NewOrCachedImage::Url(s) => NewOrCachedImage::Url(s.clone()),
        NewOrCachedImage::Id(id) => NewOrCachedImage::Id(*id),
    }
}

fn copy_images(o: &Option<Vec<NewOrCachedImage>>) -> (res: Option<Vec<NewOrCachedImage>>)
    ensures
        opt_view(res) == opt_view(*o),
{
    match o {
        Some(v) => {
            let mut out: Vec<NewOrCachedImage> = Vec::new();
            let mut i: usize = 0;
            while i < v.len()
                invariant
                    i <= v.len(),
                    out@ == v@.take(i as int),
                decreases v.len() - i,
            {
                out.push(copy_image(&v[i]));
                i = i + 1;
                assert(out@ =~= v@.take(i as int));
            }
            assert(v@.take(v.len() as int) =~= v@);
            Some(out)
        },
        None => None,
    }
}

/// Whether a row of the popup is shown: the right side has a value, and the
/// left side either has none or has one that differs from it (or equal rows
/// are shown too).
pub fn row_shown(has_left: bool, has_right: bool, values_differ: bool, show_equal_rows: bool) -> (res: bool)
    ensures
        res == (has_right && (!has_left || values_differ || show_equal_rows)),
{
    (has_left && has_right && (values_differ || show_equal_rows)) || (!has_left && has_right)
}

/// The popup that merges a book's data (left) with data found elsewhere
/// (right), field by field.
pub struct BookUpdateWithMeta {
    pub edits: BookEdit,
}

impl BookUpdateWithMeta {
    /// A popup with nothing chosen yet.
    pub fn new() -> (res: Self)
        ensures
            book_edit_empty(res.edits),
    {
        BookUpdateWithMeta { edits: BookEdit::default() }
    }

    /// The sides changed: the popup starts again from the new left side.
    pub fn changed(&mut self, left: BookEdit)
        ensures
            final(self).edits == left,
    {
        self.edits = left;
    }

    /// Takes field `value` from the right side where `is_set`, else from the
    /// left side.
    pub fn update_new(&mut self, value: UpdateValue, is_set: bool, left: &BookEdit, right: &BookEdit)
        ensures
            update_post(old(self).edits, final(self).edits, value, is_set, *left, *right),
    {
        let side = if is_set { right } else { left };
        match value {
            UpdateValue::Title => self.edits.title = copy_text(&side.title),
            UpdateValue::Description => self.edits.description = copy_text(&side.description),
            UpdateValue::Rating => self.edits.rating = side.rating,
            UpdateValue::AvailableAt => self.edits.available_at = side.available_at,
            UpdateValue::AddedImages => self.edits.added_images = copy_images(&side.added_images),
        }
    }

    /// The edit handed on when the popup is saved.
    pub fn submit(&self, left: &BookEdit) -> (res: BookEdit)
        ensures
            submitted(self.edits, *left, res),
    {
        let edits = &self.edits;
        let title = match &edits.title {
            Some(_) => copy_text(&edits.title),
            None => copy_text(&left.title),
        };
        let clean_title = match &edits.clean_title {
            Some(_) => copy_text(&edits.clean_title),
            None => copy_text(&left.clean_title),
        };
        let description = match &edits.description {
            Some(_) => copy_text(&edits.description),
            None => copy_text(&left.description),
        };
        let added_images = match &edits.added_images {
            Some(_) => copy_images(&edits.added_images),
            None => copy_images(&left.added_images),
        };
        BookEdit {
            title,
            clean_title,
            description,
            rating: match edits.rating {
                Some(r) => Some(r),
                None => left.rating,
            },
            is_public: edits.is_public,
            available_at: match edits.available_at {
                Some(t) => Some(t),
                None => left.available_at,
            },
            language: edits.language,
            display_person_id: None,
            publisher: copy_text(&edits.publisher),
            updated_people: None,
            added_people: None,
            removed_people: None,
            added_tags: None,
            removed_tags: None,
            added_images,
            removed_images: None,
            added_isbns: None,
            removed_isbns: None,
        }
    }
}

/// Taking a field from one side and saving: the saved edit holds the chosen
/// side's value of that field, or the left side's where the chosen side has
/// none.
pub proof fn law_chosen_side_is_saved(
    before: BookEdit,
    after: BookEdit,
    value: UpdateValue,
    is_set: bool,
    left: BookEdit,
    right: BookEdit,
    saved: BookEdit,
)
    requires
        update_post(before, after, value, is_set, left, right),
        submitted(after, left, saved),
    ensures
        value == UpdateValue::Title ==> saved.title == or_else(
            pick(is_set, left.title, right.title),
            left.title,
        ),
        value == UpdateValue::Description ==> saved.description == or_else(
            pick(is_set, left.description, right.description),
            left.description,
        ),
        value == UpdateValue::Rating ==> saved.rating == or_else(
            pick(is_set, left.rating, right.rating),
            left.rating,
        ),
        value == UpdateValue::AvailableAt ==> saved.available_at == or_else(
            pick(is_set, left.available_at, right.available_at),
            left.available_at,
        ),
        value == UpdateValue::AddedImages ==> opt_view(saved.added_images) == opt_view(
            or_else(pick(is_set, left.added_images, right.added_images), left.added_images),
        ),
{
}

} // verus!
