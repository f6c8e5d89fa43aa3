use librarian::config::{AuthConfig, ConfigEmail, ConfigServer};
use librarian::request_url::{book_tag_url, external_search_url, id_request_url, list_request_url};
use librarian::util::{file_size_bytes_to_readable_string, parse_num_description_string};

#[test]
fn readable_sizes() {
    assert_eq!(file_size_bytes_to_readable_string(0), "0B");
    assert_eq!(file_size_bytes_to_readable_string(-5), "-5B");
    assert_eq!(file_size_bytes_to_readable_string(512), "512B");
    assert_eq!(file_size_bytes_to_readable_string(1024), "1024B");
    assert_eq!(file_size_bytes_to_readable_string(1025), "1KB");
    assert_eq!(file_size_bytes_to_readable_string(1536), "1KB");
    assert_eq!(file_size_bytes_to_readable_string(1 << 20), "1024KB");
    assert_eq!(file_size_bytes_to_readable_string((1 << 20) + 1), "1MB");
    assert_eq!(file_size_bytes_to_readable_string(1 << 30), "1024MB");
    assert_eq!(file_size_bytes_to_readable_string((1 << 30) + 1), "1GB");
    assert_eq!(file_size_bytes_to_readable_string(1610612736), "1.5GB");
    assert_eq!(file_size_bytes_to_readable_string(1127428916), "1.05GB");
    assert_eq!(file_size_bytes_to_readable_string(5 << 40), "5120GB");
    assert_eq!(file_size_bytes_to_readable_string(i64::MIN), "-9223372036854775808B");
}

#[test]
fn num_description() {
    assert_eq!(parse_num_description_string("12-my-book"), Some(12));
    assert_eq!(parse_num_description_string("12"), Some(12));
    assert_eq!(parse_num_description_string("abc-12"), None);
    assert_eq!(parse_num_description_string("-12"), None);
    assert_eq!(parse_num_description_string(""), None);
}

#[test]
fn default_configs() {
    let auth = AuthConfig::default();
    assert!(!auth.new_users);
    assert_eq!(auth.auth_key.chars().count(), 48);
    assert!(auth.auth_key.chars().all(|c| c.is_ascii_alphanumeric()));
    assert_ne!(AuthConfig::default().auth_key, auth.auth_key);
    let server = ConfigServer::default();
    assert!(server.name.is_empty() && !server.is_secure);
    assert!(ConfigEmail::default().smtp_relay.is_empty());
}

#[test]
fn request_urls() {
    assert_eq!(list_request_url("/api/v1/collections", None, None, None), "/api/v1/collections?");
    assert_eq!(
        list_request_url("/api/v1/people", Some(10), Some(5), Some("jane doe&co")),
        "/api/v1/people?offset=10&limit=5&query=jane%20doe%26co"
    );
    assert_eq!(list_request_url("/api/v1/people", None, None, Some("é~")), "/api/v1/people?query=%C3%A9~");
    assert_eq!(id_request_url("/api/v1/book/", 7, ""), "/api/v1/book/7");
    assert_eq!(id_request_url("/api/v1/tag/book/", 3, ""), "/api/v1/tag/book/3");
    assert_eq!(book_tag_url(2, 9), "/api/v1/tag/2/book/9");
    assert_eq!(
        external_search_url("The Hobbit", "Book"),
        "/api/v1/external/search?query=The%20Hobbit&search_type=Book"
    );
}
