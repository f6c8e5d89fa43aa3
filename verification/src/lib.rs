pub mod api;
pub mod book_edit;
pub mod compare;
pub mod config;
pub mod edit_kind;
pub mod ids;
pub mod member;
pub mod perms;
pub mod request_url;
pub mod text;
pub mod ui;
pub mod util;
