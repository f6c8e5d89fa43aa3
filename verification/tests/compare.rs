use librarian::book_edit::{BookEdit, InnerEditData, NewOrCachedImage, PersonEdit};
use librarian::compare::{BookField, CompareDisplay, MapValue, PersonField};
use librarian::edit_kind::EditStatus;
use librarian::ids::{ImageId, PersonId, TagId};
use librarian::ui::edits::{
    fill_missing_old_book, fill_missing_old_person, proposed_value_mark, ValueMark,
};

#[test]
fn book_map_holds_set_fields_in_order() {
    let mut e = BookEdit::default();
    e.title = Some("T".to_string());
    e.rating = Some(4.5f64.to_bits());
    e.is_public = Some(true);
    e.language = Some(12);
    e.available_at = Some(-86400);
    e.added_images = Some(vec![
        NewOrCachedImage::Url("http://x/a.png".to_string()),
        NewOrCachedImage::Id(ImageId(9)),
    ]);
    e.removed_images = Some(vec![ImageId(3)]);
    e.added_people = Some(vec![PersonId(1)]);
    e.added_tags = Some(vec![TagId(2)]);
    e.display_person_id = Some(PersonId(5));
    let map = e.create_map();
    assert_eq!(
        map,
        vec![
            (BookField::Title, MapValue::Text("T".to_string())),
            (BookField::Rating, MapValue::Rating(4.5f64.to_bits())),
            (BookField::IsPublic, MapValue::Flag(true)),
            (BookField::AvailableAt, MapValue::Integer(-86400)),
            (BookField::Language, MapValue::Integer(12)),
            (
                BookField::AddedImages,
                MapValue::Texts(vec![
                    "http://x/a.png".to_string(),
                    "/api/v1/book/9/thumbnail".to_string()
                ])
            ),
            (
                BookField::RemovedImages,
                MapValue::Texts(vec!["/api/v1/book/3/thumbnail".to_string()])
            ),
        ]
    );
}

#[test]
fn empty_edits_have_empty_maps() {
    assert!(BookEdit::default().create_map().is_empty());
    assert!(PersonEdit::default().create_map().is_empty());
}

#[test]
fn person_map_holds_set_fields() {
    let p = PersonEdit {
        name: Some("Ann".to_string()),
        description: None,
        birth_date: Some("1900-02-03".to_string()),
        added_images: None,
        removed_images: Some(vec![ImageId(12), ImageId(0)]),
    };
    assert_eq!(
        p.create_map(),
        vec![
            (PersonField::Name, MapValue::Text("Ann".to_string())),
            (PersonField::BirthDate, MapValue::Text("1900-02-03".to_string())),
            (
                PersonField::RemovedImages,
                MapValue::Texts(vec![
                    "/api/v1/book/12/thumbnail".to_string(),
                    "/api/v1/book/0/thumbnail".to_string()
                ])
            ),
        ]
    );
}

#[test]
fn comparison_rows() {
    let rows = BookField::rows();
    assert_eq!(rows.len(), 18);
    assert_eq!(rows[0], (BookField::Title, CompareDisplay::Text));
    assert_eq!(rows[16], (BookField::AddedImages, CompareDisplay::Image));
    assert_eq!(BookField::DisplayPersonId.key(), "display_person_id");
    assert_eq!(BookField::DisplayPersonId.label(), "Display Author ID");
    assert_eq!(BookField::Isbn10.label(), "ISBN 10");
    let keys: Vec<&str> = rows.iter().map(|r| r.0.key()).collect();
    for (i, k) in keys.iter().enumerate() {
        assert!(!keys[i + 1..].contains(k));
    }
    let prows = PersonField::rows();
    assert_eq!(prows.len(), 5);
    assert_eq!(PersonField::BirthDate.key(), "birth_date");
    assert_eq!(PersonField::BirthDate.label(), "Birthday");
    assert_eq!(prows[3], (PersonField::AddedImages, CompareDisplay::Image));
}

#[test]
fn proposed_value_marks() {
    assert_eq!(proposed_value_mark(EditStatus::Accepted, true, true, false), ValueMark::Applied);
    assert_eq!(
        proposed_value_mark(EditStatus::ForceAccepted, true, false, false),
        ValueMark::Applied
    );
    assert_eq!(proposed_value_mark(EditStatus::Accepted, false, true, false), ValueMark::Stale);
    assert_eq!(proposed_value_mark(EditStatus::Pending, true, true, false), ValueMark::Stale);
    assert_eq!(proposed_value_mark(EditStatus::Pending, true, true, true), ValueMark::Proposed);
    assert_eq!(proposed_value_mark(EditStatus::Pending, false, false, false), ValueMark::Proposed);
}

#[test]
fn missing_old_values_become_empty() {
    let mut new = BookEdit::default();
    new.title = Some("New".to_string());
    let mut data: InnerEditData<u32, BookEdit, bool> =
        InnerEditData { current: Some(1), new: Some(new.clone()), old: None, updated: None };
    fill_missing_old_book(&mut data);
    assert_eq!(data.old, Some(BookEdit::default()));
    assert_eq!(data.new, Some(new.clone()));
    assert_eq!(data.current, Some(1));

    let mut old = BookEdit::default();
    old.title = Some("Old".to_string());
    let mut kept: InnerEditData<u32, BookEdit, bool> =
        InnerEditData { current: None, new: Some(new), old: Some(old.clone()), updated: Some(true) };
    fill_missing_old_book(&mut kept);
    assert_eq!(kept.old, Some(old));
    assert_eq!(kept.updated, Some(true));

    let mut person: InnerEditData<(), PersonEdit, ()> =
        InnerEditData { current: None, new: None, old: None, updated: None };
    fill_missing_old_person(&mut person);
    assert_eq!(person.old, Some(PersonEdit::default()));
}
