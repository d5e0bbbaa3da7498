use crate::json::{
    bytes_less, integer_held, items_of, lemma_array_view, member, text_member, text_of, unsigned_member,
    unsigned_of, Json, JsonMap, JsonNumber, JsonView, NumberView,
};
use vstd::prelude::*;

verus! {

/// A value is what its variant says, with its texts, its items and its members.
pub proof fn law_values_are_their_variants(
    b: bool,
    u: u64,
    i: i64,
    n: serde_json::Number,
    s: String,
    items: Vec<Json>,
    members: JsonMap,
)
    ensures
        Json::Null@ == JsonView::Null,
        Json::Bool(b)@ == JsonView::Bool(b),
        Json::Number(JsonNumber::Unsigned(u))@ == JsonView::Number(NumberView::Integer(u as int)),
        Json::Number(JsonNumber::Negative(i))@ == JsonView::Number(NumberView::Integer(i as int)),
        integer_held(n) is None ==> Json::Number(JsonNumber::Float(n))@ == JsonView::Number(
            NumberView::Other(n),
        ),
        Json::Text(s)@ == JsonView::Text(s@),
        Json::Array(items)@ is Array,
        (Json::Array(items)@->Array_0).len() == items@.len(),
        forall|j: int|
            0 <= j < items@.len() ==> #[trigger] (Json::Array(items)@->Array_0)[j] == items@[j]@,
        Json::Object(members)@ == JsonView::Object(members@),
{
    lemma_array_view(items);
}

/// A new object has no members, and one that was given a member has that member and otherwise
/// those that it had.
pub proof fn law_object_keeps_what_it_is_given(
    empty: JsonMap,
    members: JsonMap,
    key: &str,
    value: Json,
    r: JsonMap,
)
    requires
        call_ensures(JsonMap::new, (), empty),
        call_ensures(JsonMap::with, (members, key, value), r),
    ensures
        forall|k: Seq<char>| !(#[trigger] empty@.contains_key(k)),
        r@.contains_key(key@),
        r@[key@] == value@,
        forall|k: Seq<char>|
            k != key@ ==> (#[trigger] r@.contains_key(k) <==> members@.contains_key(k)),
        forall|k: Seq<char>|
            k != key@ && members@.contains_key(k) ==> #[trigger] r@[k] == members@[k],
{
}

/// Byte strings are ordered by the first byte in which they differ, and one that goes on stands
/// behind the one that ends.
pub proof fn law_byte_order(shared: Seq<u8>, x: u8, y: u8, a: Seq<u8>, b: Seq<u8>)
    ensures
        bytes_less(shared + seq![x] + a, shared + seq![y] + b) <==> x < y || x == y && bytes_less(
            a,
            b,
        ),
        bytes_less(shared, shared + seq![x] + a),
        !bytes_less(shared + seq![x] + a, shared),
        !bytes_less(shared, shared),
    decreases shared.len(),
{
    let p = shared + seq![x] + a;
    let q = shared + seq![y] + b;
    if shared.len() == 0 {
        assert(p.skip(1) =~= a);
        assert(q.skip(1) =~= b);
    } else {
        law_byte_order(shared.skip(1), x, y, a, b);
        assert(p.skip(1) =~= shared.skip(1) + seq![x] + a);
        assert(q.skip(1) =~= shared.skip(1) + seq![y] + b);
    }
}

/// The entries of an object are its members, each once, by the order of their keys' bytes.
pub proof fn law_entries(members: JsonMap, shown: &Vec<(String, Json)>, given: Vec<(String, Json)>)
    requires
        call_ensures(JsonMap::entries, (&members,), shown),
        call_ensures(JsonMap::into_entries, (members,), given),
    ensures
        forall|k: Seq<char>| #[trigger]
            members@.contains_key(k) <==> exists|i: int|
                0 <= i < shown@.len() && #[trigger] shown@[i].0@ == k,
        forall|i: int|
            0 <= i < shown@.len() ==> members@[#[trigger] shown@[i].0@] == shown@[i].1@,
        forall|i: int, j: int|
            0 <= i < j < shown@.len() ==> bytes_less(
                vstd::utf8::encode_utf8(#[trigger] shown@[i].0@),
                vstd::utf8::encode_utf8(#[trigger] shown@[j].0@),
            ),
        forall|k: Seq<char>| #[trigger]
            members@.contains_key(k) <==> exists|i: int|
                0 <= i < given@.len() && #[trigger] given@[i].0@ == k,
        forall|i: int|
            0 <= i < given@.len() ==> members@[#[trigger] given@[i].0@] == given@[i].1@,
        forall|i: int, j: int|
            0 <= i < j < given@.len() ==> bytes_less(
                vstd::utf8::encode_utf8(#[trigger] given@[i].0@),
                vstd::utf8::encode_utf8(#[trigger] given@[j].0@),
            ),
{
}

/// The value under a key of an object's members is found under exactly that key.
pub proof fn law_find_member(members: JsonMap, key: &str, r: Option<&Json>)
    requires
        call_ensures(JsonMap::get, (&members, key), r),
    ensures
        r is Some <==> members@.contains_key(key@),
        r is Some ==> (r->0)@ == members@[key@],
{
}

/// The member of an object under a key is the one that it has there; a value that is no object
/// has none.
pub proof fn law_member(value: JsonView, key: Seq<char>)
    ensures
        value is Object && (value->Object_0).contains_key(key) ==> member(value, key) == Some(
            (value->Object_0)[key],
        ),
        value is Object && !(value->Object_0).contains_key(key) ==> member(value, key) is None,
        !(value is Object) ==> member(value, key) is None,
{
}

/// A lookup gives the member of an object under exactly the key that is asked for.
pub proof fn law_get(value: &Json, key: &str, r: Option<&Json>)
    requires
        call_ensures(Json::get, (value, key), r),
    ensures
        r is Some <==> value@ is Object && (value@->Object_0).contains_key(key@),
        r is Some ==> (r->0)@ == (value@->Object_0)[key@],
{
}

/// A text is read out of a text, and out of nothing else.
pub proof fn law_as_str(value: &Json, r: Option<&str>)
    requires
        call_ensures(Json::as_str, (value,), r),
    ensures
        r is Some <==> value@ is Text,
        r is Some ==> value@ == JsonView::Text((r->0)@),
{
}

/// A count is read out of every integer from zero up that fits, and out of nothing else.
pub proof fn law_as_u64(value: &Json, r: Option<u64>)
    requires
        call_ensures(Json::as_u64, (value,), r),
    ensures
        match value@ {
            JsonView::Number(NumberView::Integer(n)) => r is Some <==> 0 <= n < 0x1_0000_0000_0000_0000,
            _ => r is None,
        },
        r is Some ==> value@ == JsonView::Number(NumberView::Integer(r->0 as int)),
{
}

/// A truth value is read out of a truth value, and out of nothing else.
pub proof fn law_as_bool(value: &Json, r: Option<bool>)
    requires
        call_ensures(Json::as_bool, (value,), r),
    ensures
        r is Some <==> value@ is Bool,
        r is Some ==> value@ == JsonView::Bool(r->0),
{
}

/// The items are read out of an array, all of them in order, and out of nothing else.
pub proof fn law_as_array(value: &Json, r: Option<&Vec<Json>>)
    requires
        call_ensures(Json::as_array, (value,), r),
    ensures
        r is Some <==> value@ is Array,
        r is Some ==> {
            &&& (r->0)@.len() == (value@->Array_0).len()
            &&& forall|i: int|
                0 <= i < (r->0)@.len() ==> (#[trigger] (r->0)@[i])@ == (value@->Array_0)[i]
        },
{
}

/// The text under a key is the text of the member there; the count under a key is the integer
/// of the member there.
pub proof fn law_members_by_kind(value: JsonView, key: Seq<char>, s: Seq<char>, n: u64)
    ensures
        text_member(value, key) == Some(s) <==> member(value, key) == Some(JsonView::Text(s)),
        unsigned_member(value, key) == Some(n) <==> member(value, key) == Some(
            JsonView::Number(NumberView::Integer(n as int)),
        ),
{
}

/// What a value is read as, it was made of.
pub proof fn law_values_by_kind(s: Seq<char>, n: u64, below: int, items: Seq<JsonView>)
    requires
        below < 0,
    ensures
        text_of(JsonView::Text(s)) == Some(s),
        unsigned_of(JsonView::Number(NumberView::Integer(n as int))) == Some(n),
        unsigned_of(JsonView::Number(NumberView::Integer(below))) is None,
        items_of(JsonView::Array(items)) == Some(items),
{
}

/// `get_str` and `get_u64` read the member that `get` would give.
pub proof fn law_get_by_kind(
    value: &Json,
    key: &str,
    text: Option<&str>,
    count: Option<u64>,
)
    requires
        call_ensures(Json::get_str, (value, key), text),
        call_ensures(Json::get_u64, (value, key), count),
    ensures
        match member(value@, key@) {
            Some(JsonView::Text(s)) => text is Some && (text->0)@ == s && count is None,
            Some(JsonView::Number(NumberView::Integer(n))) => {
                &&& text is None
                &&& 0 <= n <= u64::MAX ==> count is Some && count->0 == n
                &&& n < 0 || n > u64::MAX ==> count is None
            },
            _ => text is None && count is None,
        },
{
}

/// The makers of values make what they are given.
pub proof fn law_makers(
    s: &str,
    i: i64,
    u: u64,
    members: JsonMap,
    items: Vec<Json>,
    text: Json,
    signed: Json,
    unsigned: Json,
    object: Json,
    array: Json,
)
    requires
        call_ensures(Json::text, (s,), text),
        call_ensures(Json::integer, (i,), signed),
        call_ensures(Json::unsigned, (u,), unsigned),
        call_ensures(Json::object, (members,), object),
        call_ensures(Json::array, (items,), array),
    ensures
        text@ == JsonView::Text(s@),
        signed@ == JsonView::Number(NumberView::Integer(i as int)),
        unsigned@ == JsonView::Number(NumberView::Integer(u as int)),
        object@ == JsonView::Object(members@),
        array@ is Array,
        (array@->Array_0).len() == items@.len(),
        forall|j: int| 0 <= j < items@.len() ==> #[trigger] (array@->Array_0)[j] == items@[j]@,
{
}

} // verus!
