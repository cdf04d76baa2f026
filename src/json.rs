//! A loosely typed JSON document, and lookups of an object's members.
use vstd::prelude::*;

verus! {

/// A JSON value. Numbers keep their textual form; an object keeps its members
/// in order, and a lookup by name finds the first member of that name.
#[derive(Debug)]
pub enum Json {
    Null,
    Bool(bool),
    Number(String),
    Text(String),
    Array(Vec<Json>),
    Object(Vec<(String, Json)>),
}

/// The value of the first member named `key`.
pub open spec fn member(m: Seq<(String, Json)>, key: Seq<char>) -> Option<Json>
    decreases m.len(),
{
    if m.len() == 0 {
        None
    } else if m[0].0@ == key {
        Some(m[0].1)
    } else {
        member(m.drop_first(), key)
    }
}

/// The member at `i` is the first one named `key`.
pub proof fn lemma_member_at(m: Seq<(String, Json)>, key: Seq<char>, i: int)
    requires
        0 <= i < m.len(),
        m[i].0@ == key,
        forall|j: int| 0 <= j < i ==> (#[trigger] m[j]).0@ != key,
    ensures
        member(m, key) == Some(m[i].1),
    decreases i,
{
    if i > 0 {
        assert forall|j: int| 0 <= j < i - 1 implies (#[trigger] m.drop_first()[j]).0@ != key by {
            assert(m.drop_first()[j] == m[j + 1]);
        }
        lemma_member_at(m.drop_first(), key, i - 1);
    }
}

/// The index of the first member named `key`, if any.
pub(crate) fn find_member(m: &Vec<(String, Json)>, key: &String) -> (r: Option<usize>)
    ensures
        r matches Some(i) ==> i < m@.len() && member(m@, key@) == Some(m@[i as int].1),
        r is None ==> member(m@, key@) is None,
{
    let mut i: usize = 0;
    assert(m@.skip(0) =~= m@);
    while i < m.len()
        invariant
            i <= m@.len(),
            member(m@, key@) == member(m@.skip(i as int), key@),
        decreases m.len() - i,
    {
        assert(m@.skip(i as int).drop_first() =~= m@.skip(i + 1));
        if m[i].0 == *key {
            return Some(i);
        }
        i = i + 1;
    }
    None
}

/// The text of member `key`, where that member is a string.
pub open spec fn text_member(m: Seq<(String, Json)>, key: Seq<char>) -> Option<String> {
    match member(m, key) {
        Some(Json::Text(s)) => Some(s),
        _ => None,
    }
}

/// Member `key` read as an optional string: absent or null gives `Some(None)`,
/// a string gives `Some(Some(..))`, any other value gives `None`.
pub open spec fn optional_text_member(m: Seq<(String, Json)>, key: Seq<char>) -> Option<
    Option<String>,
> {
    match member(m, key) {
        None => Some(None),
        Some(Json::Null) => Some(None),
        Some(Json::Text(s)) => Some(Some(s)),
        _ => None,
    }
}

/// Whether every item is a string.
pub open spec fn all_text(items: Seq<Json>) -> bool {
    forall|i: int| 0 <= i < items.len() ==> #[trigger] items[i] is Text
}

/// Whether `texts` are the strings of `items`, one for one.
pub open spec fn texts_match(items: Seq<Json>, texts: Seq<String>) -> bool {
    &&& texts.len() == items.len()
    &&& forall|i: int| 0 <= i < items.len() ==> #[trigger] items[i] == Json::Text(texts[i])
}

/// Whether member `key` is an array of strings.
pub open spec fn has_text_list(m: Seq<(String, Json)>, key: Seq<char>) -> bool {
    match member(m, key) {
        Some(Json::Array(items)) => all_text(items@),
        _ => false,
    }
}

/// Whether `texts` are the strings of member `key`, an array of strings.
pub open spec fn text_list_member(
    m: Seq<(String, Json)>,
    key: Seq<char>,
    texts: Seq<String>,
) -> bool {
    match member(m, key) {
        Some(Json::Array(items)) => texts_match(items@, texts),
        _ => false,
    }
}

/// The string member `key`, or `None` where it is absent or not a string.
pub fn text_field(m: &Vec<(String, Json)>, key: &str) -> (r: Option<String>)
    ensures
        r == text_member(m@, key@),
{
    let k = String::from_str(key);
    match find_member(m, &k) {
        Some(i) => match &m[i].1 {
            Json::Text(s) => Some(s.clone()),
            _ => None,
        },
        None => None,
    }
}

/// The optional string member `key`: `Some(None)` where it is absent or null,
/// `None` where it holds anything but a string.
pub fn optional_text_field(m: &Vec<(String, Json)>, key: &str) -> (r: Option<Option<String>>)
    ensures
        r == optional_text_member(m@, key@),
{
    let k = String::from_str(key);
    match find_member(m, &k) {
        Some(i) => match &m[i].1 {
            Json::Null => Some(None),
            Json::Text(s) => Some(Some(s.clone())),
            _ => None,
        },
        None => Some(None),
    }
}

/// The strings of `items`, or `None` where one of them is no string.
fn texts(items: &Vec<Json>) -> (r: Option<Vec<String>>)
    ensures
        r is Some <==> all_text(items@),
        r matches Some(v) ==> texts_match(items@, v@),
{
    let mut out: Vec<String> = Vec::new();
    let mut i: usize = 0;
    while i < items.len()
        invariant
            i <= items@.len(),
            texts_match(items@.take(i as int), out@),
            all_text(items@.take(i as int)),
        decreases items.len() - i,
    {
        match &items[i] {
            Json::Text(s) => {
                out.push(s.clone());
            },
            _ => {
                assert(!(items@[i as int] is Text));
                return None;
            },
        }
        i = i + 1;
        assert(items@.take(i as int).drop_last() =~= items@.take(i - 1));
        assert forall|j: int| 0 <= j < i implies #[trigger] items@.take(i as int)[j] is Text by {
            if j < i - 1 {
                assert(items@.take(i as int)[j] == items@.take(i - 1)[j]);
            }
        }
    }
    assert(items@.take(i as int) =~= items@);
    Some(out)
}

/// The strings of member `key`, or `None` where it is no array of strings.
pub fn text_list_field(m: &Vec<(String, Json)>, key: &str) -> (r: Option<Vec<String>>)
    ensures
        r is Some <==> has_text_list(m@, key@),
        r matches Some(v) ==> text_list_member(m@, key@, v@),
{
    let k = String::from_str(key);
    match find_member(m, &k) {
        Some(i) => match &m[i].1 {
            Json::Array(items) => texts(items),
            _ => None,
        },
        None => None,
    }
}

} // verus!
