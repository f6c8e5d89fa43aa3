use librarian::book_edit::{BookEdit, NewOrCachedImage, PersonEdit};
use librarian::ui::meta_update::{row_shown, BookUpdateWithMeta, UpdateValue};
use librarian::ids::{BookId, EditVoteId, MemberId, PersonId, Source, TagId};
use librarian::ui::authorize::{after_login, AuthorizeQuery, LoginFollowUp};
use librarian::ui::book_view::{
    is_tag_selected, show_popup, toggle_book_tag, toggle_edit, update_editing, ChangingType, DisplayOverlay,
};
use librarian::ui::edits::{apply_my_vote, determine_new_old, get_my_vote, VoteRecord};
use librarian::ui::media_list::{add_or_remove_item_from_editing, clean_title, MediaListState};
use librarian::ui::multiselect::{
    MultiselectAction, MultiselectChild, MultiselectMsg, MultiselectProps, MultiselectState,
};
use librarian::ui::person_view::{
    pad_partial_date, toggle_person_edit, update_person_editing, PersonChangingType,
};
use librarian::ui::search_popup::{CompareState, SearchSelectedValue, SourcePick};

fn selected(db: &[TagId], e: &BookEdit, t: TagId) -> bool {
    let removed = e.removed_tags.as_ref().map(|v| v.contains(&t)).unwrap_or(false);
    let added = e.added_tags.as_ref().map(|v| v.contains(&t)).unwrap_or(false);
    (db.contains(&t) && !removed) || added
}

#[test]
fn tag_toggles_select() {
    let db = vec![TagId(1), TagId(2)];
    let mut e = BookEdit::default();
    toggle_book_tag(&mut e, &db, false, TagId(1));
    assert_eq!(e.removed_tags, Some(vec![TagId(1)]));
    assert!(!selected(&db, &e, TagId(1)));
    toggle_book_tag(&mut e, &db, true, TagId(3));
    assert_eq!(e.added_tags, Some(vec![TagId(3)]));
    assert!(selected(&db, &e, TagId(3)));
    toggle_book_tag(&mut e, &db, true, TagId(1));
    assert_eq!(e.removed_tags, None);
    assert!(selected(&db, &e, TagId(1)));
    toggle_book_tag(&mut e, &db, false, TagId(3));
    assert_eq!(e.added_tags, None);
    assert!(!selected(&db, &e, TagId(3)));
    assert!(selected(&db, &e, TagId(2)));
    assert!(e.is_empty());
    for t in [TagId(1), TagId(2), TagId(3), TagId(4)] {
        assert_eq!(is_tag_selected(&db, &e, t), selected(&db, &e, t));
    }
    toggle_book_tag(&mut e, &db, false, TagId(2));
    toggle_book_tag(&mut e, &db, true, TagId(4));
    assert!(!is_tag_selected(&db, &e, TagId(2)));
    assert!(is_tag_selected(&db, &e, TagId(4)));
    assert!(is_tag_selected(&db, &e, TagId(1)));
    assert!(!is_tag_selected(&db, &e, TagId(3)));
}

#[test]
fn field_edits() {
    let mut e = BookEdit::default();
    assert!(!update_editing(&mut e, ChangingType::Title, "Dune".to_string()));
    assert_eq!(e.title.as_deref(), Some("Dune"));
    update_editing(&mut e, ChangingType::Title, "   ".to_string());
    assert_eq!(e.title, None);
    update_editing(&mut e, ChangingType::Language, "12".to_string());
    assert_eq!(e.language, Some(12));
    update_editing(&mut e, ChangingType::Language, "70000".to_string());
    assert_eq!(e.language, None);
    update_editing(&mut e, ChangingType::Publicity, "false".to_string());
    assert_eq!(e.is_public, Some(false));
    update_editing(&mut e, ChangingType::Publicity, "yes".to_string());
    assert_eq!(e.is_public, None);
    update_editing(&mut e, ChangingType::AvailableAt(33), "2020-01-01".to_string());
    assert_eq!(e.available_at, Some(33));
    update_editing(&mut e, ChangingType::PersonRelation(PersonId(4)), "Illustrator".to_string());
    assert_eq!(e.updated_people, Some(vec![(PersonId(4), Some("Illustrator".to_string()))]));
    update_editing(&mut e, ChangingType::PersonDisplayed(PersonId(4)), String::new());
    assert_eq!(e.display_person_id, Some(PersonId(4)));
    assert!(update_editing(&mut e, ChangingType::PersonAdding(PersonId(9)), String::new()));
    assert_eq!(e.added_people, Some(vec![PersonId(9)]));
}

#[test]
fn popup_toggling() {
    let more = DisplayOverlay::<()>::More { book_id: BookId(1), mouse_x: 3, mouse_y: 4 };
    let shown = show_popup(None, more.clone());
    assert!(matches!(shown, Some(DisplayOverlay::More { .. })));
    let same_book = DisplayOverlay::<()>::More { book_id: BookId(1), mouse_x: 9, mouse_y: 9 };
    assert!(show_popup(shown, same_book).is_none());
    let shown = show_popup(None, DisplayOverlay::<()>::AddAuthor);
    assert!(matches!(show_popup(shown, DisplayOverlay::<()>::AddAuthor), Some(DisplayOverlay::AddAuthor)));
    let search = DisplayOverlay::<()>::SearchForBook { input_value: Some("x".to_string()) };
    let shown = show_popup(None, search.clone());
    assert!(show_popup(shown, search).is_none());
}

#[test]
fn edit_mode_toggle() {
    let mut editing = false;
    let mut e = BookEdit::default();
    assert!(toggle_edit(&mut editing, &mut e, false));
    assert!(editing);
    e.insert_added_tag(TagId(1));
    assert!(!toggle_edit(&mut editing, &mut e, false));
    assert!(!editing);
    assert!(e.is_empty());
    assert!(!toggle_edit(&mut editing, &mut e, true));
}

#[test]
fn media_list_paging() {
    let mut s: MediaListState<u32> = MediaListState::new();
    assert!(!s.can_req_more());
    assert_eq!(s.request_media_items(), Some(None));
    assert_eq!(s.request_media_items(), None);
    s.receive_media_items(vec![1, 2, 3], 5);
    assert!(s.can_req_more());
    assert!(s.on_scroll(1000, 500));
    assert!(!s.on_scroll(2000, 500));
    assert_eq!(s.request_media_items(), Some(Some(3)));
    s.receive_media_items(vec![4, 5], 5);
    assert_eq!(s.media_items, Some(vec![1, 2, 3, 4, 5]));
    assert!(!s.can_req_more());
}

#[test]
fn media_list_failed_request() {
    let mut s: MediaListState<u32> = MediaListState::new();
    s.receive_media_items(vec![1], 4);
    assert_eq!(s.request_media_items(), Some(Some(1)));
    s.receive_failure();
    assert!(!s.is_fetching_media_items);
    assert_eq!(s.media_items, Some(vec![1]));
    assert_eq!(s.total_media_count, 4);
    assert_eq!(s.request_media_items(), Some(Some(1)));
}

#[test]
fn editing_selection() {
    let mut items = Vec::new();
    add_or_remove_item_from_editing(&mut items, BookId(1), true);
    add_or_remove_item_from_editing(&mut items, BookId(2), true);
    add_or_remove_item_from_editing(&mut items, BookId(3), true);
    add_or_remove_item_from_editing(&mut items, BookId(1), true);
    assert_eq!(items, vec![BookId(1), BookId(2), BookId(3)]);
    add_or_remove_item_from_editing(&mut items, BookId(1), false);
    assert_eq!(items, vec![BookId(3), BookId(2)]);
    add_or_remove_item_from_editing(&mut items, BookId(7), false);
    assert_eq!(items, vec![BookId(3), BookId(2)]);
}

#[test]
fn collection_titles() {
    assert_eq!(clean_title("  My Best Books! (2020) "), "my-best-books---2020-");
    assert_eq!(clean_title("A/B\\C|D.E?F"), "a-b-c-d-e-f");
    assert_eq!(clean_title(""), "");
}

fn child(id: usize, name: &str, selected: bool) -> MultiselectChild {
    MultiselectChild { id, name: name.to_string(), selected }
}

#[test]
fn multiselect_keys_and_focus() {
    let props = MultiselectProps {
        children: vec![child(1, "Fantasy", false), child(2, "Science", false), child(3, "Fiction", true)],
        has_create_callback: true,
        has_toggle_callback: true,
    };
    let input = Some(String::new());
    let mut s = MultiselectState::new();
    let (redraw, _) = s.update(&props, &input, MultiselectMsg::OnFocus);
    assert!(redraw && s.is_focused && s.is_opened);
    s.update(&props, &input, MultiselectMsg::OnKeyDown("ArrowDown".to_string()));
    assert_eq!(s.selected_index, 1);
    s.update(&props, &input, MultiselectMsg::OnKeyDown("ArrowDown".to_string()));
    assert_eq!(s.selected_index, 1);
    let (_, actions) = s.update(&props, &input, MultiselectMsg::OnPressEnter);
    assert!(matches!(actions.as_slice(), [MultiselectAction::Toggle(true, 2)]));
    s.update(&props, &input, MultiselectMsg::OnKeyDown("ArrowUp".to_string()));
    assert_eq!(s.selected_index, 0);
    let (redraw, actions) = s.update(&props, &input, MultiselectMsg::Ignore);
    assert!(!redraw && actions.is_empty());
    s.update(&props, &input, MultiselectMsg::OnUnfocus);
    assert!(!s.is_focused && !s.is_opened && s.selected_index == 0);
}

#[test]
fn multiselect_filter_and_create() {
    let props = MultiselectProps {
        children: vec![child(1, "Fantasy", false), child(2, "Science", false)],
        has_create_callback: true,
        has_toggle_callback: true,
    };
    let input = Some("  SCI ".to_string());
    let mut s = MultiselectState::new();
    s.update(&props, &input, MultiselectMsg::OnFocus);
    s.update(&props, &input, MultiselectMsg::OnHover(0));
    assert_eq!(s.selected_index, 0);
    let typed = Some("sci".to_string());
    s.update(&props, &typed, MultiselectMsg::OnHover(0));
    assert_eq!(s.selected_index, 1);
    s.update(&props, &typed, MultiselectMsg::OnHover(2));
    assert_eq!(s.selected_index, 0);
    let (_, actions) = s.update(&props, &input, MultiselectMsg::OnCreate);
    assert_eq!(actions.len(), 2);
    assert!(matches!(actions[0], MultiselectAction::ClearInput));
    assert!(matches!(&actions[1], MultiselectAction::Create(name) if name == "SCI"));
    let (_, actions) = s.update(&props, &input, MultiselectMsg::OnUnselectItem(2));
    assert!(matches!(actions.as_slice(), [MultiselectAction::Toggle(false, 2)]));
    let (_, actions) = s.update(&props, &input, MultiselectMsg::OnSelectItem(99));
    assert!(actions.is_empty());
}

#[test]
fn authorize_queries() {
    let empty = AuthorizeQuery {
        server_owner_name: None,
        server_name: None,
        server_id: None,
        redirect_uri: None,
        state: None,
        scope: None,
    };
    assert_eq!(empty.is_missing_field(), Some("Invalid Query"));
    let mut q = empty.clone();
    q.redirect_uri = Some("https://x".to_string());
    assert_eq!(q.is_missing_field(), Some("State"));
    q.state = Some("s".to_string());
    assert_eq!(q.is_missing_field(), Some("Scope"));
    q.scope = Some("server_register".to_string());
    assert_eq!(q.is_missing_field(), None);
    q.scope = Some("other".to_string());
    assert_eq!(q.is_missing_field(), Some("Server ID"));
    q.server_id = Some("id".to_string());
    assert_eq!(q.clone().validated(), Ok(q.clone()));
    let mut r = q.clone();
    r.redirect_uri = None;
    assert_eq!(r.validated(), Err("Redirect URI"));
}

#[test]
fn login_follow_up() {
    assert_eq!(after_login(false, "/login"), LoginFollowUp::Stay);
    assert_eq!(after_login(true, "/login"), LoginFollowUp::GoHome);
    assert_eq!(after_login(true, "/book/1"), LoginFollowUp::Reload);
}

#[test]
fn votes() {
    let me = MemberId(5);
    let v = |id: usize, member: Option<usize>, vote: bool| VoteRecord {
        id: EditVoteId(id),
        member_id: member.map(MemberId),
        vote,
        created_at: 0,
    };
    let votes = Some(vec![v(1, None, true), v(2, Some(4), true), v(3, Some(5), false)]);
    assert_eq!(get_my_vote(&votes, Some(me)), Some(false));
    assert_eq!(get_my_vote(&votes, None), None);
    assert_eq!(get_my_vote(&None, Some(me)), None);

    let mut list = vec![v(1, Some(4), true)];
    apply_my_vote(&mut list, v(2, Some(5), true));
    assert_eq!(list.len(), 2);
    apply_my_vote(&mut list, v(2, Some(5), false));
    assert_eq!(list[1].vote, false);
    apply_my_vote(&mut list, v(2, Some(5), false));
    assert_eq!(list, vec![v(1, Some(4), true)]);
}

#[test]
fn new_old_values() {
    let new = Some(3);
    let old = None;
    assert_eq!(determine_new_old(&new, &old), Some((&3, &None)));
    assert_eq!(determine_new_old::<i32>(&None, &Some(1)), None);
}

#[test]
fn person_edits() {
    assert_eq!(pad_partial_date("1990"), "1990-01-01");
    assert_eq!(pad_partial_date("1990-05"), "1990-05-01");
    assert_eq!(pad_partial_date("1990-05-07"), "1990-05-07");
    let mut e = PersonEdit::default();
    update_person_editing(&mut e, PersonChangingType::BirthDate, "1990".to_string());
    assert_eq!(e.birth_date.as_deref(), Some("1990-01-01"));
    update_person_editing(&mut e, PersonChangingType::BirthDate, "1990-2".to_string());
    assert_eq!(e.birth_date.as_deref(), Some("1990-02-01"));
    update_person_editing(&mut e, PersonChangingType::BirthDate, "12-3-4".to_string());
    assert_eq!(e.birth_date.as_deref(), Some("0012-03-04"));
    update_person_editing(&mut e, PersonChangingType::BirthDate, "not a date".to_string());
    assert_eq!(e.birth_date, None);
    update_person_editing(&mut e, PersonChangingType::Name, "Ann".to_string());
    assert_eq!(e.name.as_deref(), Some("Ann"));
    update_person_editing(&mut e, PersonChangingType::Name, " ".to_string());
    assert_eq!(e.name, None);

    let mut editing = false;
    let mut e = PersonEdit::default();
    e.name = Some("x".to_string());
    assert!(!toggle_person_edit(&mut editing, &mut e, false, false));
    assert!(!editing && e.name.is_some());
    assert!(toggle_person_edit(&mut editing, &mut e, true, false));
    assert!(editing && e.is_empty());
}

#[test]
fn compare_selection() {
    let src = |v: &str| Source { agent: "a".to_string(), value: v.to_string() };
    let mut c = CompareState::new();
    assert_eq!(c.pick_source(false), SourcePick::Emit);
    assert_eq!(c.pick_source(true), SourcePick::Request);
    assert_eq!(c.pick_source(true), SourcePick::Ignore);
    c.item_response(Some(BookEdit::default()), src("1"));
    assert!(!c.ready_to_compare());
    assert_eq!(c.submit_single(), Some(&src("1")));
    assert_eq!(c.pick_source(true), SourcePick::Request);
    c.item_response(Some(BookEdit::default()), src("2"));
    assert!(c.ready_to_compare());
    assert_eq!(c.right_edit.as_ref().map(|v| &v.1), Some(&src("2")));

    let picked = SearchSelectedValue::BookId(BookId(3));
    assert_eq!(picked.into_local(), BookId(3));
    let picked = SearchSelectedValue::Source(src("9"));
    assert!(matches!(picked.into_external(), librarian::ids::Either::Left(s) if s == src("9")));
}

#[test]
fn book_update_with_meta_merges_sides() {
    let mut left = BookEdit::default();
    left.title = Some("Left".to_string());
    left.rating = Some(3.0f64.to_bits());
    left.added_images = Some(vec![NewOrCachedImage::Url("l.png".to_string())]);
    left.language = Some(7);
    left.added_tags = Some(vec![TagId(1)]);
    let mut right = BookEdit::default();
    right.title = Some("Right".to_string());
    right.description = Some("About".to_string());
    right.available_at = Some(86400);

    let mut popup = BookUpdateWithMeta::new();
    assert!(popup.edits.is_empty());
    popup.changed(left.clone());
    assert_eq!(popup.edits, left);

    popup.update_new(UpdateValue::Title, true, &left, &right);
    popup.update_new(UpdateValue::Description, true, &left, &right);
    popup.update_new(UpdateValue::Rating, true, &left, &right);
    popup.update_new(UpdateValue::AddedImages, false, &left, &right);
    assert_eq!(popup.edits.title, Some("Right".to_string()));
    assert_eq!(popup.edits.rating, None);

    let saved = popup.submit(&left);
    assert_eq!(saved.title, Some("Right".to_string()));
    assert_eq!(saved.description, Some("About".to_string()));
    assert_eq!(saved.rating, Some(3.0f64.to_bits()));
    assert_eq!(saved.available_at, None);
    assert_eq!(saved.language, Some(7));
    assert_eq!(saved.added_images, Some(vec![NewOrCachedImage::Url("l.png".to_string())]));
    assert_eq!(saved.added_tags, None);

    popup.update_new(UpdateValue::AvailableAt, true, &left, &right);
    assert_eq!(popup.submit(&left).available_at, Some(86400));

    assert!(row_shown(true, true, true, false));
    assert!(!row_shown(true, true, false, false));
    assert!(row_shown(true, true, false, true));
    assert!(row_shown(false, true, false, false));
    assert!(!row_shown(true, false, true, true));
    assert!(!row_shown(false, false, false, true));
}
