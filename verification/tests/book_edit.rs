use librarian::book_edit::{
    get_model_id, is_false, BookEdit, ModelIdGroup, NewOrCachedImage, PersonEdit, UpdatedBookEdit,
    UpdatedPersonEdit,
};
use librarian::edit_kind::EditType;
use librarian::ids::{BookId, ImageId, PersonId, TagId};

#[test]
fn empty_edits() {
    assert!(BookEdit::default().is_empty());
    assert!(PersonEdit::default().is_empty());
    assert!(UpdatedBookEdit::default().is_empty());
    assert!(UpdatedPersonEdit::default().is_empty());
    let mut e = BookEdit::default();
    e.insert_added_tag(TagId(1));
    assert!(!e.is_empty());
    let mut p = PersonEdit::default();
    p.birth_date = Some("2000-01-01".to_string());
    assert!(!p.is_empty());
}

#[test]
fn updated_book_edit_ignores_people_relations() {
    let mut u = UpdatedBookEdit::default();
    u.updated_people = true;
    assert!(u.is_empty());
    u.publisher = true;
    assert!(!u.is_empty());
    let mut p = UpdatedPersonEdit::default();
    p.birth_date = true;
    assert!(!p.is_empty());
}

#[test]
fn added_isbn_is_deduplicated() {
    let mut e = BookEdit::default();
    e.insert_added_isbn("123".to_string());
    e.insert_added_isbn("456".to_string());
    e.insert_added_isbn("123".to_string());
    assert_eq!(e.added_isbns, Some(vec!["123".to_string(), "456".to_string()]));
    e.insert_removed_isbn("9".to_string());
    e.insert_removed_isbn("9".to_string());
    assert_eq!(e.removed_isbns, Some(vec!["9".to_string(), "9".to_string()]));
}

#[test]
fn added_person_is_deduplicated() {
    let mut e = BookEdit::default();
    e.insert_added_person(PersonId(3));
    e.insert_added_person(PersonId(3));
    e.insert_added_person(PersonId(4));
    assert_eq!(e.added_people, Some(vec![PersonId(3), PersonId(4)]));
}

#[test]
fn updated_person_read_after_write() {
    let mut e = BookEdit::default();
    e.insert_updated_person(PersonId(1), Some("Author".to_string()));
    e.insert_updated_person(PersonId(2), None);
    e.insert_updated_person(PersonId(1), Some("Editor".to_string()));
    assert_eq!(
        e.updated_people,
        Some(vec![(PersonId(1), Some("Editor".to_string())), (PersonId(2), None)])
    );
    assert_eq!(e.edited_person_info(PersonId(1)), Some("Editor".to_string()));
    assert_eq!(e.edited_person_info(PersonId(2)), None);
    assert_eq!(e.edited_person_info(PersonId(3)), None);
    assert_eq!(BookEdit::default().edited_person_info(PersonId(1)), None);
}

#[test]
fn remove_tag_undoes_insert() {
    let mut e = BookEdit::default();
    e.insert_added_tag(TagId(5));
    assert_eq!(e.added_tags, Some(vec![TagId(5)]));
    e.remove_tag(TagId(5));
    assert_eq!(e.added_tags, None);
    assert!(e.is_empty());

    e.insert_added_tag(TagId(1));
    e.insert_added_tag(TagId(2));
    e.remove_tag(TagId(2));
    assert_eq!(e.added_tags, Some(vec![TagId(1)]));
}

#[test]
fn remove_tag_falls_back_to_removed_list() {
    let mut e = BookEdit::default();
    e.insert_removed_tag(TagId(7));
    e.insert_removed_tag(TagId(8));
    e.remove_tag(TagId(7));
    assert_eq!(e.removed_tags, Some(vec![TagId(8)]));
    e.remove_tag(TagId(8));
    assert_eq!(e.removed_tags, None);
    // absent everywhere: nothing changes
    e.remove_tag(TagId(9));
    assert!(e.is_empty());
}

#[test]
fn image_urls() {
    assert_eq!(NewOrCachedImage::Url("http://x/y.png".to_string()).as_url(), "http://x/y.png");
    assert_eq!(NewOrCachedImage::Id(ImageId(42)).as_url(), "/api/v1/book/42/thumbnail");
}

#[test]
fn model_ids() {
    assert_eq!(get_model_id(EditType::Book, Some(4)), Some(ModelIdGroup::Book(BookId(4))));
    assert_eq!(get_model_id(EditType::Person, Some(5)), Some(ModelIdGroup::Person(PersonId(5))));
    assert_eq!(get_model_id(EditType::Tag, Some(6)), Some(ModelIdGroup::Tag(TagId(6))));
    assert_eq!(get_model_id(EditType::Collection, None), None);
}

#[test]
fn false_flags() {
    assert!(is_false(&false));
    assert!(!is_false(&true));
}
