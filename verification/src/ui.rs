pub mod authorize;
pub mod book_view;
pub mod edits;
pub mod media_list;
pub mod meta_update;
pub mod multiselect;
pub mod person_view;
pub mod search_popup;
