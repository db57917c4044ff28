//! The header set of the transport.
//!
//! The set is kept in `reqwest`'s `HeaderMap`, so that the embedding
//! application can hand it to a request as it is. Verification sees the map
//! through [`header_entries`]: the lower-cased names it holds, each with the
//! text of its value. What this module states about the map's own methods is
//! taken on trust from the `http` crate; everything else is proved.

use reqwest::header::HeaderMap;
use reqwest::header::HeaderName;
use reqwest::header::HeaderValue;
use vstd::prelude::*;
use vstd::string::*;

verus! {

/// `http::HeaderMap`, which `reqwest::header` hands on. Verification does
/// not look inside it.
#[verifier::external_type_specification]
#[verifier::external_body]
#[verifier::reject_recursive_types(T)]
pub struct ExHeaderMap<T>(HeaderMap<T>);

/// `http::HeaderValue`, the kind of value that the header set holds.
/// Verification does not look inside it.
#[verifier::external_type_specification]
#[verifier::external_body]
pub struct ExHeaderValue(HeaderValue);

/// What a header map holds: every name in it, in lower case, with the text
/// of the first value stored under that name, its bytes read as UTF-8.
pub uninterp spec fn header_entries(map: HeaderMap<HeaderValue>) -> Map<Seq<char>, Seq<char>>;

/// The longest header name, in bytes.
pub const MAX_HEADER_NAME_LEN: usize = 65535;

/// The largest number of names that a map may hold before an insertion
/// into it. An insertion panics only when the map has to grow and cannot:
/// its index holds at most 32768 slots, and the earliest that it asks for
/// more is when five times the number of its names reaches that many.
pub const MAX_HEADER_COUNT: usize = 6553;

/// The characters of an HTTP token, of which header names are made.
pub open spec fn is_token_char(c: char) -> bool {
    ||| 'a' <= c <= 'z'
    ||| 'A' <= c <= 'Z'
    ||| '0' <= c <= '9'
    ||| c == '!'
    ||| c == '#'
    ||| c == '$'
    ||| c == '%'
    ||| c == '&'
    ||| c == '\''
    ||| c == '*'
    ||| c == '+'
    ||| c == '-'
    ||| c == '.'
    ||| c == '^'
    ||| c == '_'
    ||| c == '`'
    ||| c == '|'
    ||| c == '~'
}

/// The characters that a header value may hold: the tab and everything
/// from the space upwards but the delete character.
pub open spec fn is_value_char(c: char) -> bool {
    c == '\t' || (' ' <= c && c != '\x7f')
}

/// A header name: between one and 65535 token characters.
pub open spec fn valid_header_name(name: Seq<char>) -> bool {
    &&& 0 < name.len() <= MAX_HEADER_NAME_LEN
    &&& forall|i: int| 0 <= i < name.len() ==> is_token_char(#[trigger] name[i])
}

/// A header value: any number of value characters.
pub open spec fn valid_header_value(value: Seq<char>) -> bool {
    forall|i: int| 0 <= i < value.len() ==> is_value_char(#[trigger] value[i])
}

/// The lower-case form of an ASCII capital; any other character itself.
pub open spec fn ascii_lower(c: char) -> char {
    match c {
        'A' => 'a',
        'B' => 'b',
        'C' => 'c',
        'D' => 'd',
        'E' => 'e',
        'F' => 'f',
        'G' => 'g',
        'H' => 'h',
        'I' => 'i',
        'J' => 'j',
        'K' => 'k',
        'L' => 'l',
        'M' => 'm',
        'N' => 'n',
        'O' => 'o',
        'P' => 'p',
        'Q' => 'q',
        'R' => 'r',
        'S' => 's',
        'T' => 't',
        'U' => 'u',
        'V' => 'v',
        'W' => 'w',
        'X' => 'x',
        'Y' => 'y',
        'Z' => 'z',
        _ => c,
    }
}

/// The key under which a header name is stored: the name in lower case.
pub open spec fn name_key(name: Seq<char>) -> Seq<char> {
    Seq::new(name.len(), |i: int| ascii_lower(name[i]))
}

/// A key is its own key: a name that is already in lower case is stored
/// as it is, so names that differ only in case share one entry.
pub proof fn lemma_name_key_idempotent(name: Seq<char>)
    ensures
        name_key(name_key(name)) == name_key(name),
        name_key(name).len() == name.len(),
{
    assert(name_key(name_key(name)) =~= name_key(name));
}

/// The entries of a map that holds nothing.
pub open spec fn no_entries() -> Map<Seq<char>, Seq<char>> {
    Map::empty()
}

/// A map with room for one more name.
pub open spec fn has_room(entries: Map<Seq<char>, Seq<char>>) -> bool {
    entries.dom().finite() && entries.dom().len() <= MAX_HEADER_COUNT
}

/// Tells whether `c` may stand in a header name.
pub fn token_char(c: char) -> (ok: bool)
    ensures
        ok == is_token_char(c),
{
    ('a' <= c && c <= 'z') || ('A' <= c && c <= 'Z') || ('0' <= c && c <= '9') || c == '!'
        || c == '#' || c == '$' || c == '%' || c == '&' || c == '\'' || c == '*' || c == '+'
        || c == '-' || c == '.' || c == '^' || c == '_' || c == '`' || c == '|' || c == '~'
}

/// Tells whether `c` may stand in a header value.
pub fn value_char(c: char) -> (ok: bool)
    ensures
        ok == is_value_char(c),
{
    c == '\t' || (' ' <= c && c != '\x7f')
}

/// Tells whether `name` can name a header.
pub fn is_valid_header_name(name: &str) -> (ok: bool)
    ensures
        ok == valid_header_name(name@),
{
    let mut len: usize = 0;
    for c in it: name.chars()
        invariant
            it.seq() == name@,
            len == it.index(),
            len <= MAX_HEADER_NAME_LEN,
            forall|j: int| 0 <= j < it.index() ==> is_token_char(#[trigger] name@[j]),
    {
        if len == MAX_HEADER_NAME_LEN || !token_char(c) {
            return false;
        }
        len += 1;
    }
    len > 0
}

/// Tells whether `value` can be the value of a header.
pub fn is_valid_header_value(value: &str) -> (ok: bool)
    ensures
        ok == valid_header_value(value@),
{
    for c in it: value.chars()
        invariant
            it.seq() == value@,
            forall|j: int| 0 <= j < it.index() ==> is_value_char(#[trigger] value@[j]),
    {
        if !value_char(c) {
            return false;
        }
    }
    true
}

/// `HeaderMap::new`: the new map holds nothing.
#[verifier::external_body]
pub(crate) fn header_map_new() -> (map: HeaderMap)
    ensures
        header_entries(map) == no_entries(),
{
    HeaderMap::new()
}

/// `HeaderMap::insert`, after `HeaderName::from_bytes` and
/// `HeaderValue::from_str` have taken the name and the value: the value
/// replaces whatever the map held under the lower-cased name, and nothing
/// else changes. The two conversions fail on nothing that the
/// precondition admits, and the map has room.
#[verifier::external_body]
pub(crate) fn header_map_insert(map: &mut HeaderMap, name: &str, value: &str)
    requires
        valid_header_name(name@),
        valid_header_value(value@),
        has_room(header_entries(*old(map))),
    ensures
        header_entries(*final(map)) == header_entries(*old(map)).insert(
            name_key(name@),
            value@,
        ),
{
    let name = HeaderName::from_bytes(name.as_bytes()).unwrap();
    let value = HeaderValue::from_str(value).unwrap();
    map.insert(name, value);
}

/// `HeaderMap::get` with a string key, and `HeaderValue::as_bytes` on what
/// it finds: the lookup ignores the case of the name and yields the text of
/// the value stored under it, if there is one. A key that is no header name
/// finds nothing.
#[verifier::external_body]
pub(crate) fn header_map_get(map: &HeaderMap, name: &str) -> (value: Option<String>)
    ensures
        match value {
            Some(text) => header_entries(*map).contains_key(name_key(name@))
                && text@ == header_entries(*map)[name_key(name@)],
            None => !header_entries(*map).contains_key(name_key(name@)),
        },
{
    match map.get(name) {
        Some(value) => Some(String::from_utf8_lossy(value.as_bytes()).into_owned()),
        None => None,
    }
}

/// `HeaderMap::keys_len`: the number of names in the map.
#[verifier::external_body]
pub(crate) fn header_map_keys_len(map: &HeaderMap) -> (count: usize)
    ensures
        count == header_entries(*map).dom().len(),
{
    map.keys_len()
}

/// `HeaderMap::clone`: the copy holds what the map holds.
#[verifier::external_body]
pub(crate) fn header_map_clone(map: &HeaderMap) -> (copy: HeaderMap)
    ensures
        header_entries(copy) == header_entries(*map),
{
    map.clone()
}

} // verus!
