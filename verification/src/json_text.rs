use crate::json::{
    filled, lemma_filled, lists, number_held, plain, views, Json, JsonMap, JsonNumber, JsonView,
};
use vstd::prelude::*;

verus! {

/// A JSON value of `serde_json`.
#[verifier::external_type_specification]
#[verifier::external_body]
pub struct ExSerdeValue(serde_json::Value);

/// The members of a JSON object of `serde_json`.
#[verifier::external_type_specification]
#[verifier::external_body]
#[verifier::reject_recursive_types(K)]
#[verifier::reject_recursive_types(V)]
pub struct ExSerdeMap<K, V>(serde_json::Map<K, V>);

/// The JSON value that a value of `serde_json` is.
pub uninterp spec fn held(value: serde_json::Value) -> JsonView;

/// The members that a map of `serde_json` holds.
pub uninterp spec fn members_held(
    members: serde_json::Map<String, serde_json::Value>,
) -> Map<Seq<char>, JsonView>;

/// The compact JSON text of a value.
pub uninterp spec fn rendered(value: JsonView) -> Seq<char>;

/// What a text holds as JSON, or the message that says why it holds none.
pub uninterp spec fn parsed(text: Seq<char>) -> Result<JsonView, Seq<char>>;

/// One level of a value of `serde_json`.
enum Level {
    Null,
    Bool(bool),
    Number(serde_json::Number),
    Text(String),
    Array(Vec<serde_json::Value>),
    Object(serde_json::Map<String, serde_json::Value>),
}

/// The JSON values that a run of values of `serde_json` is.
spec fn all_held(values: Seq<serde_json::Value>) -> Seq<JsonView> {
    Seq::new(values.len(), |i: int| held(values[i]))
}

impl Level {
    /// The JSON value that this is the top of.
    spec fn model(self) -> JsonView {
        match self {
            Level::Null => JsonView::Null,
            Level::Bool(b) => JsonView::Bool(b),
            Level::Number(n) => JsonView::Number(number_held(n)),
            Level::Text(s) => JsonView::Text(s@),
            Level::Array(values) => JsonView::Array(all_held(values@)),
            Level::Object(members) => JsonView::Object(members_held(members)),
        }
    }
}

/// The variants of `serde_json::Value`, made out of what each holds.
#[verifier::external_body]
fn closed_up(level: Level) -> (r: serde_json::Value)
    ensures
        held(r) == level.model(),
{
    match level {
        Level::Null => serde_json::Value::Null,
        Level::Bool(b) => serde_json::Value::Bool(b),
        Level::Number(n) => serde_json::Value::Number(n),
        Level::Text(s) => serde_json::Value::String(s),
        Level::Array(values) => serde_json::Value::Array(values),
        Level::Object(members) => serde_json::Value::Object(members),
    }
}

/// The variants of `serde_json::Value`, taken apart into what each holds.
#[verifier::external_body]
fn opened(value: serde_json::Value) -> (r: Level)
    ensures
        r.model() == held(value),
{
    match value {
        serde_json::Value::Null => Level::Null,
        serde_json::Value::Bool(b) => Level::Bool(b),
        serde_json::Value::Number(n) => Level::Number(n),
        serde_json::Value::String(s) => Level::Text(s),
        serde_json::Value::Array(values) => Level::Array(values),
        serde_json::Value::Object(members) => Level::Object(members),
    }
}

/// `serde_json::Number`'s `From<u64>` makes the number that is the given integer.
#[verifier::external_body]
fn number_from_unsigned(n: u64) -> (r: serde_json::Number)
    ensures
        crate::json::integer_held(r) == Some(n as i128),
{
    serde_json::Number::from(n)
}

/// `serde_json::Number`'s `From<i64>` makes the number that is the given integer.
#[verifier::external_body]
fn number_from_signed(n: i64) -> (r: serde_json::Number)
    ensures
        crate::json::integer_held(r) == Some(n as i128),
{
    serde_json::Number::from(n)
}

/// `serde_json::Map::new` makes a map without members.
pub assume_specification[ serde_json::Map::<String, serde_json::Value>::new ]() -> (r:
    serde_json::Map<String, serde_json::Value>)
    ensures
        members_held(r).dom() == Set::<Seq<char>>::empty(),
;

/// `serde_json::Map::insert` puts a value under a key and gives back what stood there.
pub assume_specification[ serde_json::Map::<String, serde_json::Value>::insert ](
    members: &mut serde_json::Map<String, serde_json::Value>,
    k: String,
    v: serde_json::Value,
) -> (r: Option<serde_json::Value>)
    ensures
        members_held(*final(members)) == members_held(*old(members)).insert(k@, held(v)),
        match r {
            Some(before) => members_held(*old(members)).contains_key(k@) && held(before)
                == members_held(*old(members))[k@],
            None => !members_held(*old(members)).contains_key(k@),
        },
;

/// `entries` are the members in `m`.
spec fn entries_of(
    entries: Seq<(String, serde_json::Value)>,
    m: Map<Seq<char>, JsonView>,
) -> bool {
    &&& m.dom().finite()
    &&& forall|i: int|
        0 <= i < entries.len() ==> {
            &&& m.contains_key(#[trigger] entries[i].0@)
            &&& m[entries[i].0@] == held(entries[i].1)
        }
    &&& forall|k: Seq<char>| #[trigger]
        m.contains_key(k) ==> exists|i: int| 0 <= i < entries.len() && #[trigger] entries[i].0@ == k
}

/// The walk of `serde_json::Map`'s `into_iter`, which gives every member and nothing else.
#[verifier::external_body]
fn walked(members: serde_json::Map<String, serde_json::Value>) -> (r: Vec<
    (String, serde_json::Value),
>)
    ensures
        entries_of(r@, members_held(members)),
{
    members.into_iter().collect()
}

/// A text holds `value` as JSON.
pub open spec fn holds(text: Seq<char>, value: JsonView) -> bool {
    parsed(text) == Ok::<JsonView, Seq<char>>(value)
}

/// How deep arrays and objects may be nested for `serde_json::from_str` to read them.
pub const READ_DEPTH: usize = 127;

/// A value that its text gives back: its numbers are integers, and it is not nested deeper
/// than `serde_json` reads. Of other numbers the text may give back a neighbour.
pub open spec fn reads_back(value: JsonView) -> bool {
    plain(value, READ_DEPTH as nat)
}

/// The text that `serde_json::Value`'s `Display` writes: one line, since the compact form
/// has no white space between tokens and escapes line ends within texts. `from_str` reads
/// the value back out of it, as `reads_back` says.
#[verifier::external_body]
fn text_of_value(value: &serde_json::Value) -> (r: String)
    ensures
        r@ == rendered(held(*value)),
        forall|i: int| 0 <= i < r@.len() ==> #[trigger] r@[i] != '\n' && r@[i] != '\r',
        reads_back(held(*value)) ==> holds(r@, held(*value)),
{
    value.to_string()
}

/// What `serde_json::from_str` reads out of a text as a `serde_json::Value`, or the text of
/// its error.
#[verifier::external_body]
fn value_of_text(text: &str) -> (r: Result<serde_json::Value, String>)
    ensures
        match r {
            Ok(value) => parsed(text@) == Ok::<JsonView, Seq<char>>(held(value)),
            Err(message) => parsed(text@) == Err::<JsonView, Seq<char>>(message@),
        },
{
    match serde_json::from_str::<serde_json::Value>(text) {
        Ok(value) => Ok(value),
        Err(err) => Err(err.to_string()),
    }
}

/// The value in the form of `serde_json`.
pub fn to_serde(value: &Json) -> (r: serde_json::Value)
    ensures
        held(r) == value@,
    decreases value@,
{
    match value {
        Json::Null => closed_up(Level::Null),
        Json::Bool(b) => closed_up(Level::Bool(*b)),
        Json::Number(JsonNumber::Unsigned(n)) => closed_up(
            Level::Number(number_from_unsigned(*n)),
        ),
        Json::Number(JsonNumber::Negative(n)) => closed_up(Level::Number(number_from_signed(*n))),
        Json::Number(JsonNumber::Float(n)) => closed_up(Level::Number(n.clone())),
        Json::Text(s) => closed_up(Level::Text(s.clone())),
        Json::Array(items) => {
            let ghost all = views(items@);
            proof {
                crate::json::lemma_array_view(*items);
            }
            let n: usize = items.len();
            let mut out: Vec<serde_json::Value> = Vec::new();
            for i in 0..n
                invariant
                    n == items@.len(),
                    all == views(items@),
                    value@ == JsonView::Array(all),
                    all_held(out@) == all.take(i as int),
            {
                let ghost before = out@;
                assert(decreases_to!(value@ => value@->Array_0));
                assert(decreases_to!(all => all[i as int]));
                out.push(to_serde(&items[i]));
                assert(all_held(out@) =~= all_held(before).push(all[i as int]));
                assert(all.take(i + 1) =~= all.take(i as int).push(all[i as int]));
            }
            assert(all.take(n as int) =~= all);
            closed_up(Level::Array(out))
        },
        Json::Object(members) => {
            let ghost m = members@;
            let entries = members.entries();
            let n: usize = entries.len();
            let mut out = serde_json::Map::new();
            proof {
                lemma_filled(m, entries@, 0);
                assert(members_held(out) =~= filled(m, entries@, 0));
            }
            for i in 0..n
                invariant
                    n == entries@.len(),
                    m == members@,
                    value@ == JsonView::Object(m),
                    lists(entries@, m),
                    members_held(out) == filled(m, entries@, i as int),
            {
                assert(m.contains_key(entries@[i as int].0@));
                assert(decreases_to!(value@ => value@->Object_0));
                assert(decreases_to!(m => m[entries@[i as int].0@]));
                let inner = to_serde(&entries[i].1);
                out.insert(entries[i].0.clone(), inner);
                proof {
                    lemma_filled(m, entries@, i as int);
                }
            }
            proof {
                lemma_filled(m, entries@, n as int);
            }
            closed_up(Level::Object(out))
        },
    }
}

/// The value out of the form of `serde_json`.
pub fn from_serde(value: serde_json::Value) -> (r: Json)
    ensures
        r@ == held(value),
    decreases held(value),
{
    let ghost whole = held(value);
    match opened(value) {
        Level::Null => Json::Null,
        Level::Bool(b) => Json::Bool(b),
        Level::Number(n) => match n.as_i128() {
            Some(i) => if 0 <= i && i <= u64::MAX as i128 {
                Json::Number(JsonNumber::Unsigned(i as u64))
            } else if i64::MIN as i128 <= i && i < 0 {
                Json::Number(JsonNumber::Negative(i as i64))
            } else {
                Json::Number(JsonNumber::Float(n))
            },
            None => Json::Number(JsonNumber::Float(n)),
        },
        Level::Text(s) => Json::Text(s),
        Level::Array(values) => {
            let ghost all = all_held(values@);
            let mut out: Vec<Json> = Vec::new();
            for item in it: values
                invariant
                    it.seq() == values@,
                    all == all_held(values@),
                    whole == JsonView::Array(all),
                    whole == held(value),
                    views(out@) == all.take(it.index() as int),
            {
                let ghost i = it.index() as int;
                let ghost before = out@;
                assert(held(item) == all[i]);
                assert(decreases_to!(whole => whole->Array_0));
                assert(decreases_to!(all => all[i]));
                out.push(from_serde(item));
                assert(views(out@) =~= views(before).push(all[i]));
                assert(all.take(i + 1) =~= all.take(i).push(all[i]));
            }
            assert(all.take(all.len() as int) =~= all);
            Json::array(out)
        },
        Level::Object(members) => {
            let ghost m = members_held(members);
            let entries = walked(members);
            let mut out = JsonMap::new();
            proof {
                lemma_filled(m, entries@, 0);
            }
            for entry in it: entries
                invariant
                    it.seq() == entries@,
                    whole == JsonView::Object(m),
                    whole == held(value),
                    entries_of(entries@, m),
                    out@ == filled(m, entries@, it.index() as int),
            {
                let ghost at = it.index() as int;
                assert(entry == entries@[at]);
                let (key, inner) = entry;
                assert(m.contains_key(entries@[at].0@));
                assert(decreases_to!(whole => whole->Object_0));
                assert(decreases_to!(m => m[key@]));
                out = out.with(key.as_str(), from_serde(inner));
                proof {
                    lemma_filled(m, entries@, at);
                }
            }
            proof {
                lemma_filled(m, entries@, entries@.len() as int);
            }
            Json::object(out)
        },
    }
}

/// The compact JSON text of a value, which stands on one line and gives the value back.
pub(crate) fn render(value: &Json) -> (r: String)
    ensures
        r@ == rendered(value@),
        forall|i: int| 0 <= i < r@.len() ==> #[trigger] r@[i] != '\n' && r@[i] != '\r',
        reads_back(value@) ==> holds(r@, value@),
{
    text_of_value(&to_serde(value))
}

/// What a text holds as JSON, or the message that says why it holds none.
pub(crate) fn parse(text: &str) -> (r: Result<Json, String>)
    ensures
        match r {
            Ok(value) => parsed(text@) == Ok::<JsonView, Seq<char>>(value@),
            Err(message) => parsed(text@) == Err::<JsonView, Seq<char>>(message@),
        },
{
    match value_of_text(text) {
        Ok(value) => Ok(from_serde(value)),
        Err(message) => Err(message),
    }
}

} // verus!
