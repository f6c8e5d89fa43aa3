use vstd::prelude::*;
use crate::book_edit::PersonEdit;
use crate::config::SharedConfig;
use crate::edit_kind::ModifyValuesBy;
use crate::ids::{BookId, BookTagId, Either, ImageId, PersonId, Source, TagId};
use crate::member::MemberSettings;
use crate::text::{
    all_ascii, ascii_lower, chars_of, decimal, lowercase, parse_unsigned, parse_unsigned_chars,
    push_decimal, push_str, str_eq, string_of, to_lowercase,
};

verus! {

/// Sort direction.
#[derive(Debug, Clone, Copy, PartialEq, Eq, Structural)]
pub enum OrderBy {
    Asc,
    Desc,
}

/// The SQL keyword of a sort direction.
pub open spec fn order_text(o: OrderBy) -> Seq<char> {
    match o {
        OrderBy::Asc => "ASC"@,
        OrderBy::Desc => "DESC"@,
    }
}

/// The direction whose lower-case name is `lower`.
pub open spec fn order_from_lower(lower: Seq<char>) -> Option<OrderBy> {
    if lower == "asc"@ {
        Some(OrderBy::Asc)
    } else if lower == "desc"@ {
        Some(OrderBy::Desc)
    } else {
        None
    }
}

impl OrderBy {
    /// The SQL keyword: `ASC` or `DESC`.
    pub fn into_string(self) -> (res: &'static str)
        ensures
            res@ == order_text(self),
    {
        match self {
            OrderBy::Asc => "ASC",
            OrderBy::Desc => "DESC",
        }
    }

    /// Reads a direction in any letter case: `asc` or `desc`.
    pub fn from_string(value: &str) -> (res: Option<Self>)
        ensures
            res == order_from_lower(lowercase(value@)),
            all_ascii(value@) ==> res == order_from_lower(ascii_lower(value@)),
    {
        let lower = to_lowercase(value);
        if str_eq(lower.as_str(), "asc") {
            Some(Self::Asc)
        } else if str_eq(lower.as_str(), "desc") {
            Some(Self::Desc)
        } else {
            None
        }
    }
}

/// Reading back the SQL keyword of a direction gives the direction.
pub proof fn law_order_round_trip(o: OrderBy)
    ensures
        all_ascii(order_text(o)),
        order_from_lower(ascii_lower(order_text(o))) == Some(o),
{
    reveal_strlit("ASC");
    reveal_strlit("DESC");
    reveal_strlit("asc");
    reveal_strlit("desc");
    assert(ascii_lower("ASC"@) =~= "asc"@);
    assert(ascii_lower("DESC"@) =~= "desc"@);
    assert("asc"@ != "desc"@) by {
        assert("asc"@.len() != "desc"@.len());
    }
}

/// The page size used when a list query names none.
pub open spec fn default_limit() -> usize {
    25
}

/// Offset, limit and text of a list request.
#[derive(Debug, Clone, PartialEq, Eq)]
pub struct SimpleListQuery {
    pub offset: Option<usize>,
    pub limit: Option<usize>,
    pub query: Option<String>,
}

/// The page size in force: the limit, or 25.
pub open spec fn effective_limit(limit: Option<usize>) -> usize {
    match limit {
        Some(l) => l,
        None => default_limit(),
    }
}

/// The page the offset falls in.
pub open spec fn page_of(offset: Option<usize>, limit: Option<usize>) -> int {
    (match offset {
        Some(o) => o as int,
        None => 0,
    }) / (effective_limit(limit) as int)
}

/// The query-string text of a list query.
pub open spec fn list_query_text(q: SimpleListQuery) -> Seq<char> {
    "page="@ + decimal(page_of(q.offset, q.limit) as nat) + match q.limit {
        Some(l) => "&limit="@ + decimal(l as nat),
        None => Seq::empty(),
    }
}

/// The list query that the search parameters `limit`, `page` and `offset`
/// of an address describe: the limit is the parsed `limit` or 25, the offset
/// is page times limit when a page is given, else the parsed `offset`, and an
/// offset of 0 is left out.
pub open spec fn query_from_params(
    limit: Option<Seq<char>>,
    page: Option<Seq<char>>,
    offset: Option<Seq<char>>,
) -> SimpleListQuery {
    let l: nat = match limit {
        Some(t) => match parse_unsigned(t, usize::MAX as nat) {
            Some(v) => v,
            None => default_limit() as nat,
        },
        None => default_limit() as nat,
    };
    let o: nat = match page {
        Some(t) => match parse_unsigned(t, usize::MAX as nat) {
            Some(p) => p * l,
            None => param_offset(offset),
        },
        None => param_offset(offset),
    };
    SimpleListQuery {
        offset: if o == 0 {
            None
        } else {
            Some(o as usize)
        },
        limit: Some(l as usize),
        query: None,
    }
}

/// The parsed `offset` parameter, 0 when absent or unreadable.
pub open spec fn param_offset(offset: Option<Seq<char>>) -> nat {
    match offset {
        Some(t) => match parse_unsigned(t, usize::MAX as nat) {
            Some(v) => v,
            None => 0,
        },
        None => 0,
    }
}

/// The product of page and limit that `query_from_params` computes fits in
/// a `usize`.
pub open spec fn params_fit(limit: Option<Seq<char>>, page: Option<Seq<char>>) -> bool {
    let l: nat = match limit {
        Some(t) => match parse_unsigned(t, usize::MAX as nat) {
            Some(v) => v,
            None => default_limit() as nat,
        },
        None => default_limit() as nat,
    };
    match page {
        Some(t) => match parse_unsigned(t, usize::MAX as nat) {
            Some(p) => p * l <= usize::MAX,
            None => true,
        },
        None => true,
    }
}

fn parse_usize_param(t: Option<&str>) -> (res: Option<usize>)
    ensures
        res == match t {
            Some(s) => match parse_unsigned(s@, usize::MAX as nat) {
                Some(v) => Some(v as usize),
                None => None,
            },
            None => None,
        },
{
    match t {
        Some(s) => {
            let v = chars_of(s);
            match parse_unsigned_chars(&v, usize::MAX as u64) {
                Some(x) => Some(x as usize),
                None => None,
            }
        },
        None => None,
    }
}

impl SimpleListQuery {
    /// The default page size.
    pub fn limit() -> (res: usize)
        ensures
            res == default_limit(),
    {
        25
    }

    /// Builds the query from the `limit`, `page` and `offset` search
    /// parameters of the page address.
    pub fn from_search_params(limit: Option<&str>, page: Option<&str>, offset: Option<&str>) -> (res:
        Self)
        requires
            params_fit(opt_str_view(limit), opt_str_view(page)),
        ensures
            res == query_from_params(opt_str_view(limit), opt_str_view(page), opt_str_view(offset)),
    {
        let l = match parse_usize_param(limit) {
            Some(v) => v,
            None => Self::limit(),
        };
        let o: usize = match parse_usize_param(page) {
            Some(p) => {
                assert(p as nat * l as nat <= usize::MAX);
                p * l
            },
            None => match parse_usize_param(offset) {
                Some(v) => v,
                None => 0,
            },
        };
        SimpleListQuery { offset: if o == 0 { None } else { Some(o) }, limit: Some(l), query: None }
    }

    /// The page the offset falls in.
    pub fn get_page(&self) -> (res: usize)
        requires
            self.limit != Some(0usize),
        ensures
            res as int == page_of(self.offset, self.limit),
    {
        let offset = match self.offset {
            Some(o) => o,
            None => 0,
        };
        let limit = match self.limit {
            Some(l) => l,
            None => Self::limit(),
        };
        offset / limit
    }

    /// Moves to page `value`: the offset becomes `value` times the page size.
    pub fn set_page(&mut self, value: usize)
        requires
            value * effective_limit(old(self).limit) <= usize::MAX,
        ensures
            final(self).offset == Some((value * effective_limit(old(self).limit)) as usize),
            final(self).limit == old(self).limit,
            final(self).query == old(self).query,
    {
        if value == 0 {
            self.offset = None;
        }
        if let Some(limit) = self.limit {
            self.offset = Some(value * limit);
        } else {
            self.offset = Some(value * Self::limit());
        }
    }

    /// The query string: `page=` and the page, then `&limit=` and the limit
    /// when one is set.
    pub fn to_query(&self) -> (res: String)
        requires
            self.limit != Some(0usize),
        ensures
            res@ == list_query_text(*self),
    {
        let mut query = string_of("page=");
        push_decimal(&mut query, self.get_page() as u64);
        if let Some(limit) = self.limit {
            push_str(&mut query, "&limit=");
            push_decimal(&mut query, limit as u64);
        }
        query
    }
}

impl SimpleListQuery {
    /// The query string of the page before (`forward` false, never before
    /// the first page) or after (`forward` true) the current one, as the
    /// paging buttons of list pages build it.
    pub fn neighbour_page_query(&self, forward: bool) -> (res: String)
        requires
            self.limit != Some(0usize),
            forward ==> (page_of(self.offset, self.limit) + 1) * effective_limit(self.limit)
                <= usize::MAX,
        ensures
            res@ == list_query_text(
                SimpleListQuery {
                    offset: Some(
                        (neighbour_page(page_of(self.offset, self.limit), forward) * effective_limit(
                            self.limit,
                        )) as usize,
                    ),
                    ..*self
                },
            ),
    {
        let mut q = SimpleListQuery { offset: self.offset, limit: self.limit, query: None };
        let page = self.get_page();
        proof {
            if forward {
                let l = effective_limit(self.limit) as int;
                assert(page + 1 <= usize::MAX) by (nonlinear_arith)
                    requires
                        (page + 1) * l <= usize::MAX,
                        l >= 1,
                ;
            }
        }
        let target = if forward {
            page + 1
        } else if page == 0 {
            0
        } else {
            page - 1
        };
        proof {
            let l = effective_limit(self.limit) as int;
            let o: int = match self.offset {
                Some(o) => o as int,
                None => 0,
            };
            assert(l > 0);
            assert((o / l) * l <= o) by (nonlinear_arith)
                requires
                    l > 0,
                    o >= 0,
            ;
            if !forward && page > 0 {
                assert((page - 1) * l <= page * l) by (nonlinear_arith)
                    requires
                        l > 0,
                        page >= 1,
                ;
            }
        }
        q.set_page(target);
        let res = q.to_query();
        assert(list_query_text(q) == list_query_text(
            SimpleListQuery {
                offset: Some(
                    (neighbour_page(page_of(self.offset, self.limit), forward) * effective_limit(
                        self.limit,
                    )) as usize,
                ),
                ..*self
            },
        ));
        res
    }
}

/// The page next to `page`: one after, or one before but never before the
/// first.
pub open spec fn neighbour_page(page: int, forward: bool) -> int {
    if forward {
        page + 1
    } else if page == 0 {
        0
    } else {
        page - 1
    }
}

impl Default for SimpleListQuery {
    fn default() -> (res: Self)
        ensures
            res.offset is None && res.limit is None && res.query is None,
    {
        SimpleListQuery { offset: None, limit: None, query: None }
    }
}

/// The view of an optional string.
pub open spec fn opt_str_view(t: Option<&str>) -> Option<Seq<char>> {
    match t {
        Some(s) => Some(s@),
        None => None,
    }
}

/// Moving to a page and asking for the page gives it back, whenever the page
/// size in force is not 0.
pub proof fn law_set_page_get_page(offset: Option<usize>, limit: Option<usize>, value: usize)
    requires
        effective_limit(limit) > 0,
        value * effective_limit(limit) <= usize::MAX,
    ensures
        page_of(Some((value * effective_limit(limit)) as usize), limit) == value,
{
    let l = effective_limit(limit) as int;
    assert((value as int * l) / l == value as int) by (nonlinear_arith)
        requires
            l > 0,
    ;
}

/// The query built from a `page` parameter and a non-zero `limit` parameter
/// is on that page.
pub proof fn law_params_page(limit: Option<Seq<char>>, page: Option<Seq<char>>, offset: Option<
    Seq<char>,
>)
    requires
        params_fit(limit, page),
        page matches Some(t) && parse_unsigned(t, usize::MAX as nat) is Some,
        query_from_params(limit, page, offset).limit != Some(0usize),
    ensures
        page_of(
            query_from_params(limit, page, offset).offset,
            query_from_params(limit, page, offset).limit,
        ) == parse_unsigned(page->0, usize::MAX as nat)->0,
{
    let q = query_from_params(limit, page, offset);
    let l = q.limit->0 as int;
    let p = parse_unsigned(page->0, usize::MAX as nat)->0 as int;
    assert(l > 0);
    assert((p * l) / l == p) by (nonlinear_arith)
        requires
            l > 0,
    ;
    if p * l == 0 {
        assert(p == 0) by (nonlinear_arith)
            requires
                l > 0,
                p * l == 0,
                p >= 0,
        ;
    }
}

/// Going one page forward and then one page back lands on the page started
/// from.
pub proof fn law_next_then_previous_page(offset: Option<usize>, limit: Option<usize>)
    requires
        effective_limit(limit) > 0,
        (page_of(offset, limit) + 1) * effective_limit(limit) <= usize::MAX,
    ensures
        ({
            let p = page_of(offset, limit);
            let l = effective_limit(limit);
            let next = Some((neighbour_page(p, true) * l) as usize);
            let back = Some((neighbour_page(page_of(next, limit), false) * l) as usize);
            page_of(back, limit) == p
        }),
{
    let p = page_of(offset, limit);
    let l = effective_limit(limit) as int;
    assert(p >= 0) by (nonlinear_arith)
        requires
            l > 0,
            p == (match offset {
                Some(o) => o as int,
                None => 0,
            }) / l,
    ;
    assert(((p + 1) * l) / l == p + 1) by (nonlinear_arith)
        requires
            l > 0,
    ;
    assert((p * l) / l == p) by (nonlinear_arith)
        requires
            l > 0,
    ;
    let nv = (p + 1) * l;
    assert(0 <= p * l <= nv) by (nonlinear_arith)
        requires
            l > 0,
            p >= 0,
            nv == (p + 1) * l,
    ;
    let next = Some(nv as usize);
    assert(page_of(next, limit) == p + 1);
    assert(neighbour_page(p + 1, false) == p);
    assert(neighbour_page(p, true) * l == nv);
}

/// Results of an outside search, by the agent that found them.
#[derive(Debug, Clone)]
pub struct ExternalSearchResponse {
    pub items: std::collections::HashMap<String, Vec<SearchItem>>,
}

/// A book found by an outside metadata agent.
#[derive(Debug, Clone, PartialEq, Eq)]
pub struct MetadataBookSearchItem {
    pub source: Source,
    pub author: Option<String>,
    pub thumbnail_url: String,
    pub description: Option<String>,
    pub name: String,
}

/// A person found by an outside metadata agent.
#[derive(Debug, Clone, PartialEq, Eq)]
pub struct MetadataPersonSearchItem {
    pub source: Source,
    pub cover_image: Option<String>,
    pub name: String,
    pub other_names: Option<Vec<String>>,
    pub description: Option<String>,
    pub birth_date: Option<String>,
    pub death_date: Option<String>,
}

/// One result of an outside search.
#[derive(Debug, Clone, PartialEq, Eq)]
pub enum SearchItem {
    Book(MetadataBookSearchItem),
    Person(MetadataPersonSearchItem),
}

impl SearchItem {
    /// The book of a book result.
    pub fn as_book(&self) -> (res: &MetadataBookSearchItem)
        requires
            self is Book,
        ensures
            *self == SearchItem::Book(*res),
    {
        match self {
            Self::Book(v) => v,
            Self::Person(_) => vstd::pervasive::unreached(),
        }
    }

    /// The person of a person result.
    pub fn as_person(&self) -> (res: &MetadataPersonSearchItem)
        requires
            self is Person,
        ensures
            *self == SearchItem::Person(*res),
    {
        match self {
            Self::Person(v) => v,
            Self::Book(_) => vstd::pervasive::unreached(),
        }
    }
}

/// Changes to a collection.
#[derive(Debug, Clone, PartialEq, Eq)]
pub struct UpdateCollectionModel {
    pub name: Option<String>,
    pub description: Option<Option<String>>,
    pub added_books: Option<Vec<BookId>>,
}

/// Adds a tag to a book, optionally at a position.
#[derive(Debug, Clone, Copy, PartialEq, Eq, Structural)]
pub struct NewBookTagBody {
    pub tag_id: TagId,
    pub index: Option<usize>,
}

/// The link created between a book and a tag.
#[derive(Debug, Clone, Copy, PartialEq, Eq, Structural)]
pub struct NewBookTagResponse {
    pub id: BookTagId,
}

/// Whether posters should also be looked up through metadata agents.
#[derive(Debug, Clone, Copy, PartialEq, Eq, Structural)]
pub struct GetPostersQuery {
    pub search_metadata: bool,
}

/// A new poster: an address, or an image already stored.
#[derive(Debug, Clone, PartialEq, Eq)]
pub struct ChangePosterBody {
    pub url_or_id: Either<String, ImageId>,
}

/// Changes the people of several books at once.
#[derive(Debug, Clone, PartialEq, Eq)]
pub struct MassEditBooks {
    pub book_ids: Vec<BookId>,
    pub people_list: Vec<PersonId>,
    pub people_list_mod: ModifyValuesBy,
}

impl Default for MassEditBooks {
    fn default() -> (res: Self)
        ensures
            res.book_ids@.len() == 0,
            res.people_list@.len() == 0,
            res.people_list_mod == ModifyValuesBy::Overwrite,
    {
        MassEditBooks {
            book_ids: Vec::new(),
            people_list: Vec::new(),
            people_list_mod: ModifyValuesBy::Overwrite,
        }
    }
}

/// Whether page data should be prepared when a resource is loaded.
#[derive(Debug, Clone, Copy, PartialEq, Eq, Structural)]
pub struct LoadResourceQuery {
    pub configure_pages: bool,
}

/// What a book list is searched by.
#[derive(Debug, Clone, PartialEq, Eq)]
pub enum QueryType {
    Query(String),
    Person(PersonId),
    HasPerson(bool),
}

/// A book list request.
#[derive(Debug, Clone, PartialEq, Eq)]
pub struct BookListQuery {
    pub search: Option<QueryType>,
    pub offset: Option<usize>,
    pub limit: Option<usize>,
    pub order: Option<OrderBy>,
}

impl Default for BookListQuery {
    fn default() -> (res: Self)
        ensures
            res.search is None && res.offset is None && res.limit is None && res.order is None,
    {
        BookListQuery { search: None, offset: None, limit: None, order: None }
    }
}

/// What to do with a person.
#[derive(Debug, Clone, PartialEq, Eq)]
pub enum PostPersonBody {
    AutoMatchById,
    UpdateBySource(Source),
    CombinePersonWith(PersonId),
    Edit(PersonEdit),
}

/// A search among people.
#[derive(Debug, Clone, PartialEq, Eq)]
pub struct GetPeopleSearch {
    pub query: Option<String>,
}

/// Which background tasks to run.
#[derive(Debug, Clone, Copy, PartialEq, Eq, Structural)]
pub struct RunTaskBody {
    pub run_search: bool,
    pub run_metadata: bool,
}

/// What to do with the metadata of a book.
#[derive(Debug, Clone, PartialEq, Eq)]
pub enum PostMetadataBody {
    AutoMatchMetaIdBySource,
    AutoMatchMetaIdByFiles,
    UpdateMetaBySource(Source),
}

/// The server settings.
#[derive(Debug, Clone)]
pub struct GetSettingsResponse {
    pub config: SharedConfig,
}

/// A public book search.
#[derive(Debug, Clone, PartialEq, Eq)]
pub struct GetSearchQuery {
    pub query: String,
    pub offset: Option<usize>,
    pub limit: Option<usize>,
    pub view_private: bool,
    pub server_id: String,
}

/// Changes to the server options.
#[derive(Debug, Clone, PartialEq, Eq)]
pub struct OptionsUpdate {
    pub server_name: Option<String>,
    pub user_signup: Option<bool>,
    pub member: Option<MemberSettings>,
}

impl Default for OptionsUpdate {
    fn default() -> (res: Self)
        ensures
            res.server_name is None && res.user_signup is None && res.member is None,
    {
        OptionsUpdate { server_name: None, user_signup: None, member: None }
    }
}

} // verus!
