use librarian::api::{OrderBy, SearchItem, MetadataBookSearchItem, MetadataPersonSearchItem, SimpleListQuery};
use librarian::ids::Source;

#[test]
fn order_by_text() {
    assert_eq!(OrderBy::Asc.into_string(), "ASC");
    assert_eq!(OrderBy::Desc.into_string(), "DESC");
    assert_eq!(OrderBy::from_string("asc"), Some(OrderBy::Asc));
    assert_eq!(OrderBy::from_string("DeSc"), Some(OrderBy::Desc));
    assert_eq!(OrderBy::from_string("ascending"), None);
    assert_eq!(OrderBy::from_string(""), None);
    for o in [OrderBy::Asc, OrderBy::Desc] {
        assert_eq!(OrderBy::from_string(o.into_string()), Some(o));
    }
}

#[test]
fn list_query_pages() {
    assert_eq!(SimpleListQuery::limit(), 25);
    let mut q = SimpleListQuery::default();
    assert_eq!(q.get_page(), 0);
    q.set_page(3);
    assert_eq!(q.offset, Some(75));
    assert_eq!(q.get_page(), 3);
    assert_eq!(q.to_query(), "page=3");

    let mut q = SimpleListQuery { offset: Some(99), limit: Some(10), query: None };
    assert_eq!(q.get_page(), 9);
    assert_eq!(q.to_query(), "page=9&limit=10");
    q.set_page(0);
    assert_eq!(q.offset, Some(0));
    assert_eq!(q.get_page(), 0);
}

#[test]
fn list_query_from_params() {
    let q = SimpleListQuery::from_search_params(Some("10"), Some("2"), Some("5"));
    assert_eq!(q, SimpleListQuery { offset: Some(20), limit: Some(10), query: None });
    let q = SimpleListQuery::from_search_params(None, None, Some("40"));
    assert_eq!(q, SimpleListQuery { offset: Some(40), limit: Some(25), query: None });
    let q = SimpleListQuery::from_search_params(Some("x"), Some("y"), Some("z"));
    assert_eq!(q, SimpleListQuery { offset: None, limit: Some(25), query: None });
    let q = SimpleListQuery::from_search_params(None, Some("0"), None);
    assert_eq!(q.offset, None);
    assert_eq!(q.get_page(), 0);
}

#[test]
fn neighbour_pages() {
    let q = SimpleListQuery { offset: Some(50), limit: None, query: None };
    assert_eq!(q.neighbour_page_query(true), "page=3");
    assert_eq!(q.neighbour_page_query(false), "page=1");
    let first = SimpleListQuery { offset: None, limit: Some(5), query: None };
    assert_eq!(first.neighbour_page_query(false), "page=0&limit=5");
    assert_eq!(first.neighbour_page_query(true), "page=1&limit=5");
}

fn source() -> Source {
    Source { agent: "openlibrary".to_string(), value: "OL1M".to_string() }
}

#[test]
fn search_items() {
    let book = MetadataBookSearchItem {
        source: source(),
        author: None,
        thumbnail_url: String::new(),
        description: None,
        name: "Book".to_string(),
    };
    let item = SearchItem::Book(book.clone());
    assert_eq!(item.as_book(), &book);
    let person = MetadataPersonSearchItem {
        source: source(),
        cover_image: None,
        name: "Someone".to_string(),
        other_names: None,
        description: None,
        birth_date: None,
        death_date: None,
    };
    let item = SearchItem::Person(person.clone());
    assert_eq!(item.as_person(), &person);
}
