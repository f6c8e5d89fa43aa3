use vstd::prelude::*;
use vstd::utf8::encode_utf8;
use crate::text::{decimal, push_decimal, push_str, string_of};

verus! {

/// A byte that `urlencoding` leaves as it is: an ASCII letter or digit, or
/// one of `-`, `.`, `_`, `~`.
pub open spec fn is_unreserved_byte(b: u8) -> bool {
    (0x30 <= b <= 0x39) || (0x41 <= b <= 0x5a) || (0x61 <= b <= 0x7a) || b == 0x2d || b == 0x2e
        || b == 0x5f || b == 0x7e
}

/// The upper-case hexadecimal digit of `d < 16`.
pub open spec fn hex_upper(d: u8) -> char {
    if d < 10 {
        ((0x30 + d) as u32) as char
    } else {
        ((0x41 - 10 + d) as u32) as char
    }
}

/// One byte, percent-encoded.
pub open spec fn percent_encode_byte(b: u8) -> Seq<char> {
    if is_unreserved_byte(b) {
        seq![(b as u32) as char]
    } else {
        seq!['%', hex_upper(b >> 4), hex_upper(b & 15)]
    }
}

/// Bytes, percent-encoded one by one.
pub open spec fn percent_encode(bytes: Seq<u8>) -> Seq<char>
    decreases bytes.len(),
{
    if bytes.len() == 0 {
        Seq::empty()
    } else {
        percent_encode_byte(bytes[0]) + percent_encode(bytes.drop_first())
    }
}

/// `urlencoding::encode`: the UTF-8 bytes of `s`, each left as it is when it
/// is an ASCII letter, digit, `-`, `.`, `_` or `~`, and otherwise written as
/// `%` and two upper-case hexadecimal digits.
#[verifier::external_body]
fn url_encode(s: &str) -> (res: String)
    ensures
        res@ == percent_encode(encode_utf8(s@)),
{
    urlencoding::encode(s).into_owned()
}

/// The `name=value&` piece of a numeric search parameter, empty when absent.
pub open spec fn num_param(name: Seq<char>, value: Option<usize>) -> Seq<char> {
    match value {
        Some(v) => name + "="@ + decimal(v as nat) + "&"@,
        None => Seq::empty(),
    }
}

/// The address of a list request: the base, `?`, then `offset=..&` and
/// `limit=..&` when given, then `query=` and the percent-encoded query when
/// given.
pub open spec fn list_url(
    base: Seq<char>,
    offset: Option<usize>,
    limit: Option<usize>,
    query: Option<Seq<char>>,
) -> Seq<char> {
    base + "?"@ + num_param("offset"@, offset) + num_param("limit"@, limit) + match query {
        Some(q) => "query="@ + percent_encode(encode_utf8(q)),
        None => Seq::empty(),
    }
}

/// Builds the address of a list request (collections, people, edits,
/// searches, members).
pub fn list_request_url(base: &str, offset: Option<usize>, limit: Option<usize>, query: Option<&str>) -> (res: String)
    ensures
        res@ == list_url(
            base@,
            offset,
            limit,
            match query {
                Some(q) => Some(q@),
                None => None,
            },
        ),
{
    let mut url = string_of(base);
    push_str(&mut url, "?");
    let ghost a = base@ + "?"@;
    assert(url@ =~= a);
    if let Some(value) = offset {
        push_str(&mut url, "offset=");
        push_decimal(&mut url, value as u64);
        push_str(&mut url, "&");
        assert(url@ =~= a + ("offset="@ + decimal(value as nat) + "&"@));
        assert(num_param("offset"@, offset) =~= "offset"@ + "="@ + decimal(value as nat) + "&"@);
        assert("offset="@ =~= "offset"@ + "="@) by {
            reveal_strlit("offset=");
            reveal_strlit("offset");
            reveal_strlit("=");
        }
    }
    let ghost b = a + num_param("offset"@, offset);
    assert(url@ =~= b);
    if let Some(value) = limit {
        push_str(&mut url, "limit=");
        push_decimal(&mut url, value as u64);
        push_str(&mut url, "&");
        assert(url@ =~= b + ("limit="@ + decimal(value as nat) + "&"@));
        assert("limit="@ =~= "limit"@ + "="@) by {
            reveal_strlit("limit=");
            reveal_strlit("limit");
            reveal_strlit("=");
        }
    }
    let ghost c = b + num_param("limit"@, limit);
    assert(url@ =~= c);
    if let Some(value) = query {
        push_str(&mut url, "query=");
        let enc = url_encode(value);
        push_str(&mut url, enc.as_str());
        assert(url@ =~= c + ("query="@ + percent_encode(encode_utf8(value@))));
    }
    assert(url@ =~= list_url(
        base@,
        offset,
        limit,
        match query {
            Some(q) => Some(q@),
            None => None,
        },
    ));
    url
}

/// `prefix`, the number `id`, then `suffix`.
pub open spec fn id_path(prefix: Seq<char>, id: usize, suffix: Seq<char>) -> Seq<char> {
    prefix + decimal(id as nat) + suffix
}

/// Builds an address that holds one identifier, such as `/api/v1/book/7`.
pub fn id_request_url(prefix: &str, id: usize, suffix: &str) -> (res: String)
    ensures
        res@ == id_path(prefix@, id, suffix@),
{
    let mut url = string_of(prefix);
    push_decimal(&mut url, id as u64);
    push_str(&mut url, suffix);
    assert(url@ =~= id_path(prefix@, id, suffix@));
    url
}

/// The address of the link between a tag and a book.
pub open spec fn book_tag_path(tag: usize, book: usize) -> Seq<char> {
    "/api/v1/tag/"@ + decimal(tag as nat) + "/book/"@ + decimal(book as nat)
}

/// Builds the address of the link between a tag and a book.
pub fn book_tag_url(tag: usize, book: usize) -> (res: String)
    ensures
        res@ == book_tag_path(tag, book),
{
    let mut url = string_of("/api/v1/tag/");
    push_decimal(&mut url, tag as u64);
    push_str(&mut url, "/book/");
    push_decimal(&mut url, book as u64);
    assert(url@ =~= book_tag_path(tag, book));
    url
}

/// The address of an outside search for `search` of kind `search_type`.
pub open spec fn external_search_path(search: Seq<char>, search_type: Seq<char>) -> Seq<char> {
    "/api/v1/external/search?query="@ + percent_encode(encode_utf8(search)) + "&search_type="@
        + search_type
}

/// Builds the address of an outside search.
pub fn external_search_url(search: &str, search_type: &str) -> (res: String)
    ensures
        res@ == external_search_path(search@, search_type@),
{
    let mut url = string_of("/api/v1/external/search?query=");
    let enc = url_encode(search);
    push_str(&mut url, enc.as_str());
    push_str(&mut url, "&search_type=");
    push_str(&mut url, search_type);
    assert(url@ =~= external_search_path(search@, search_type@));
    url
}

/// Bytes that are all ASCII letters, digits, `-`, `.`, `_` or `~` are left
/// as they are by percent-encoding: each becomes its own character.
pub proof fn law_unreserved_bytes_unchanged(bytes: Seq<u8>)
    requires
        forall|i: int| 0 <= i < bytes.len() ==> is_unreserved_byte(#[trigger] bytes[i]),
    ensures
        percent_encode(bytes) == bytes.map_values(|b: u8| (b as u32) as char),
    decreases bytes.len(),
{
    if bytes.len() > 0 {
        let rest = bytes.drop_first();
        assert forall|i: int| 0 <= i < rest.len() implies is_unreserved_byte(#[trigger] rest[i]) by {
            assert(rest[i] == bytes[i + 1]);
        }
        law_unreserved_bytes_unchanged(rest);
        assert(is_unreserved_byte(bytes[0]));
        assert(bytes.map_values(|b: u8| (b as u32) as char) =~= seq![(bytes[0] as u32) as char]
            + rest.map_values(|b: u8| (b as u32) as char));
    } else {
        assert(bytes.map_values(|b: u8| (b as u32) as char) =~= Seq::<char>::empty());
    }
}

} // verus!
