use vstd::prelude::*;

verus! {

/// A number of `serde_json`, carried as it came.
#[verifier::external_type_specification]
#[verifier::external_body]
pub struct ExSerdeNumber(serde_json::Number);

/// The clone of a `serde_json::Number` is the same number: the number is one plain field,
/// which the derived `clone` copies.
pub assume_specification[ <serde_json::Number as Clone>::clone ](n: &serde_json::Number) -> (r:
    serde_json::Number)
    ensures
        r == *n,
;

/// The integer that a number of `serde_json` is, where it is one.
pub uninterp spec fn integer_held(n: serde_json::Number) -> Option<i128>;

/// `serde_json::Number::as_i128` gives the integer that a number is, and nothing for a number
/// with a fraction or an exponent.
pub assume_specification[ serde_json::Number::as_i128 ](n: &serde_json::Number) -> (r: Option<i128>)
    ensures
        r == integer_held(*n),
;

/// A JSON number.
#[derive(Debug, PartialEq, Eq)]
pub enum JsonNumber {
    /// An integer from zero up.
    Unsigned(u64),
    /// An integer below zero.
    Negative(i64),
    /// Any other number, carried through as it is.
    Float(serde_json::Number),
}

/// What a JSON number is: an integer, or a number of `serde_json` that is none.
pub enum NumberView {
    Integer(int),
    Other(serde_json::Number),
}

/// What a number of `serde_json` is.
pub open spec fn number_held(n: serde_json::Number) -> NumberView {
    match integer_held(n) {
        Some(i) => NumberView::Integer(i as int),
        None => NumberView::Other(n),
    }
}

impl View for JsonNumber {
    type V = NumberView;

    open spec fn view(&self) -> NumberView {
        match self {
            JsonNumber::Unsigned(n) => NumberView::Integer(*n as int),
            JsonNumber::Negative(n) => NumberView::Integer(*n as int),
            JsonNumber::Float(n) => number_held(*n),
        }
    }
}

impl Clone for JsonNumber {
    fn clone(&self) -> (r: Self)
        ensures
            r == *self,
    {
        match self {
            JsonNumber::Unsigned(n) => JsonNumber::Unsigned(*n),
            JsonNumber::Negative(n) => JsonNumber::Negative(*n),
            JsonNumber::Float(n) => JsonNumber::Float(n.clone()),
        }
    }
}

/// A JSON value.
#[derive(Debug, PartialEq, Eq)]
pub enum Json {
    Null,
    Bool(bool),
    Number(JsonNumber),
    Text(String),
    Array(Vec<Json>),
    Object(JsonMap),
}

/// The members of a JSON object, each key once, in the order of the keys' bytes.
#[derive(Debug, PartialEq, Eq)]
pub struct JsonMap {
    entries: Vec<(String, Json)>,
}

/// What a JSON value is: its texts as sequences of characters, its objects as maps.
pub enum JsonView {
    Null,
    Bool(bool),
    Number(NumberView),
    Text(Seq<char>),
    Array(Seq<JsonView>),
    Object(Map<Seq<char>, JsonView>),
}

/// Lexicographic order of two byte strings.
pub open spec fn bytes_less(a: Seq<u8>, b: Seq<u8>) -> bool
    decreases a.len(),
{
    if b.len() == 0 {
        false
    } else if a.len() == 0 {
        true
    } else if a[0] != b[0] {
        a[0] < b[0]
    } else {
        bytes_less(a.skip(1), b.skip(1))
    }
}

/// The order in which an object keeps its keys.
pub open spec fn key_less(a: Seq<char>, b: Seq<char>) -> bool {
    bytes_less(vstd::utf8::encode_utf8(a), vstd::utf8::encode_utf8(b))
}

/// Each key stands before the keys of the later entries.
pub open spec fn in_order(entries: Seq<(String, Json)>) -> bool {
    forall|i: int, j: int|
        0 <= i < j < entries.len() ==> key_less(#[trigger] entries[i].0@, #[trigger] entries[j].0@)
}

/// The map that a run of entries makes.
spec fn entries_model(entries: Seq<(String, Json)>) -> Map<Seq<char>, JsonView>
    decreases entries,
{
    if entries.len() == 0 {
        Map::empty()
    } else {
        entries_model(entries.drop_last()).insert(
            entries.last().0@,
            entries.last().1.model(),
        )
    }
}

impl Json {
    pub open spec fn model(&self) -> JsonView
        decreases self,
    {
        match self {
            Json::Null => JsonView::Null,
            Json::Bool(b) => JsonView::Bool(*b),
            Json::Number(n) => JsonView::Number(n@),
            Json::Text(s) => JsonView::Text(s@),
            Json::Array(items) => JsonView::Array(
                Seq::new(
                    items@.len(),
                    |i: int|
                        if 0 <= i < items@.len() {
                            items@[i].model()
                        } else {
                            JsonView::Null
                        },
                ),
            ),
            Json::Object(members) => JsonView::Object(members.model()),
        }
    }
}

impl JsonMap {
    pub closed spec fn model(&self) -> Map<Seq<char>, JsonView>
        decreases self,
    {
        entries_model(self.entries@)
    }

    #[verifier::type_invariant]
    spec fn sorted(self) -> bool {
        in_order(self.entries@)
    }
}

/// No byte string stands before itself.
proof fn lemma_bytes_irreflexive(a: Seq<u8>)
    ensures
        !bytes_less(a, a),
    decreases a.len(),
{
    if a.len() > 0 {
        lemma_bytes_irreflexive(a.skip(1));
    }
}

/// The order of byte strings is transitive.
proof fn lemma_bytes_transitive(a: Seq<u8>, b: Seq<u8>, c: Seq<u8>)
    requires
        bytes_less(a, b),
        bytes_less(b, c),
    ensures
        bytes_less(a, c),
    decreases a.len(),
{
    if a.len() > 0 && b.len() > 0 && c.len() > 0 && a[0] == b[0] && b[0] == c[0] {
        lemma_bytes_transitive(a.skip(1), b.skip(1), c.skip(1));
    }
}

/// Keys in order differ from each other.
proof fn lemma_keys_differ(a: Seq<char>, b: Seq<char>)
    requires
        key_less(a, b),
    ensures
        a != b,
{
    lemma_bytes_irreflexive(vstd::utf8::encode_utf8(a));
}

/// What the map of a run of entries holds.
proof fn lemma_entries_model(entries: Seq<(String, Json)>)
    ensures
        entries_model(entries).dom().finite(),
        forall|k: Seq<char>| #[trigger]
            entries_model(entries).contains_key(k) <==> exists|i: int|
                0 <= i < entries.len() && #[trigger] entries[i].0@ == k,
        in_order(entries) ==> forall|i: int|
            0 <= i < entries.len() ==> entries_model(entries)[#[trigger] entries[i].0@]
                == entries[i].1.model(),
    decreases entries.len(),
{
    if entries.len() > 0 {
        let front = entries.drop_last();
        let n = entries.len() - 1;
        lemma_entries_model(front);
        assert forall|k: Seq<char>| #[trigger]
            entries_model(entries).contains_key(k) <==> exists|i: int|
                0 <= i < entries.len() && #[trigger] entries[i].0@ == k by {
            if entries_model(entries).contains_key(k) {
                if k != entries[n].0@ {
                    assert(entries_model(front).contains_key(k));
                    let i = choose|i: int| 0 <= i < front.len() && #[trigger] front[i].0@ == k;
                    assert(entries[i].0@ == k);
                }
            } else {
                assert(k != entries[n].0@);
                assert(!entries_model(front).contains_key(k));
                assert forall|i: int| 0 <= i < entries.len() implies #[trigger] entries[i].0@
                    != k by {
                    if i < n {
                        assert(front[i].0@ == entries[i].0@);
                    }
                }
            }
        }
        if in_order(entries) {
            assert forall|i: int, j: int| 0 <= i < j < front.len() implies key_less(
                #[trigger] front[i].0@,
                #[trigger] front[j].0@,
            ) by {
                assert(key_less(entries[i].0@, entries[j].0@));
            }
            assert forall|i: int| 0 <= i < entries.len() implies entries_model(
                entries,
            )[#[trigger] entries[i].0@] == entries[i].1.model() by {
                if i < n {
                    assert(front[i] == entries[i]);
                    lemma_keys_differ(entries[i].0@, entries[n].0@);
                }
            }
        }
    }
}

/// `entries` are the members of the object `m`, each key once, in order.
pub open spec fn lists(entries: Seq<(String, Json)>, m: Map<Seq<char>, JsonView>) -> bool {
    &&& m.dom().finite()
    &&& forall|i: int|
        0 <= i < entries.len() ==> {
            &&& m.contains_key(#[trigger] entries[i].0@)
            &&& m[entries[i].0@] == entries[i].1@
        }
    &&& forall|k: Seq<char>| #[trigger]
        m.contains_key(k) ==> exists|i: int| 0 <= i < entries.len() && #[trigger] entries[i].0@ == k
    &&& forall|i: int, j: int|
        0 <= i < j < entries.len() ==> #[trigger] entries[i].0@ != #[trigger] entries[j].0@
}

/// Entries in order list the map that they make.
proof fn lemma_lists(entries: Seq<(String, Json)>)
    requires
        in_order(entries),
    ensures
        lists(entries, entries_model(entries)),
{
    lemma_entries_model(entries);
    assert forall|i: int, j: int| 0 <= i < j < entries.len() implies #[trigger] entries[i].0@
        != #[trigger] entries[j].0@ by {
        lemma_keys_differ(entries[i].0@, entries[j].0@);
    }
}

/// What is there of `whole` when its members under the keys of the first `n` of `entries` have
/// been put in.
pub open spec fn filled<V>(
    whole: Map<Seq<char>, JsonView>,
    entries: Seq<(String, V)>,
    n: int,
) -> Map<Seq<char>, JsonView> {
    whole.restrict(
        Set::new(|k: Seq<char>| exists|i: int| 0 <= i < n && #[trigger] entries[i].0@ == k),
    )
}

/// A map that is filled entry by entry starts empty, grows by a member at a time, and ends as
/// the whole once it has been filled under every key.
pub proof fn lemma_filled<V>(
    whole: Map<Seq<char>, JsonView>,
    entries: Seq<(String, V)>,
    n: int,
)
    requires
        0 <= n <= entries.len(),
        forall|i: int| 0 <= i < entries.len() ==> whole.contains_key(#[trigger] entries[i].0@),
        forall|k: Seq<char>| #[trigger]
            whole.contains_key(k) ==> exists|i: int|
                0 <= i < entries.len() && #[trigger] entries[i].0@ == k,
    ensures
        n == 0 ==> filled(whole, entries, n) == Map::<Seq<char>, JsonView>::empty(),
        n < entries.len() ==> filled(whole, entries, n + 1) == filled(whole, entries, n).insert(
            entries[n].0@,
            whole[entries[n].0@],
        ),
        n == entries.len() ==> filled(whole, entries, n) == whole,
{
    if n == 0 {
        assert(filled(whole, entries, n) =~= Map::<Seq<char>, JsonView>::empty());
    }
    if n < entries.len() {
        assert(filled(whole, entries, n + 1) =~= filled(whole, entries, n).insert(
            entries[n].0@,
            whole[entries[n].0@],
        ));
    }
    if n == entries.len() {
        assert(filled(whole, entries, n) =~= whole);
    }
}

/// How two keys stand to each other.
enum KeyOrder {
    Before,
    Same,
    After,
}

/// Which of two keys an object keeps first.
fn key_order(a: &str, b: &str) -> (r: KeyOrder)
    ensures
        match r {
            KeyOrder::Before => key_less(a@, b@),
            KeyOrder::Same => a@ == b@,
            KeyOrder::After => key_less(b@, a@),
        },
{
    let x: &[u8] = a.as_bytes();
    let y: &[u8] = b.as_bytes();
    let m: usize = x.len();
    let n: usize = y.len();
    let mut i: usize = 0;
    assert(x@.skip(0) =~= x@);
    assert(y@.skip(0) =~= y@);
    while i < m && i < n
        invariant
            m == x@.len(),
            n == y@.len(),
            i <= m,
            i <= n,
            x@.take(i as int) == y@.take(i as int),
            bytes_less(x@, y@) == bytes_less(x@.skip(i as int), y@.skip(i as int)),
            bytes_less(y@, x@) == bytes_less(y@.skip(i as int), x@.skip(i as int)),
            x@ == vstd::utf8::encode_utf8(a@),
            y@ == vstd::utf8::encode_utf8(b@),
        decreases m - i,
    {
        if x[i] < y[i] {
            return KeyOrder::Before;
        }
        if x[i] > y[i] {
            return KeyOrder::After;
        }
        assert(x@.skip(i as int).skip(1) =~= x@.skip(i + 1));
        assert(y@.skip(i as int).skip(1) =~= y@.skip(i + 1));
        assert(x@.take(i + 1) =~= x@.take(i as int).push(x@[i as int]));
        assert(y@.take(i + 1) =~= y@.take(i as int).push(y@[i as int]));
        i += 1;
    }
    if i < n {
        return KeyOrder::Before;
    }
    if i < m {
        return KeyOrder::After;
    }
    proof {
        assert(x@.take(i as int) =~= x@);
        assert(y@.take(i as int) =~= y@);
        vstd::utf8::encode_utf8_decode_utf8(a@);
        vstd::utf8::encode_utf8_decode_utf8(b@);
    }
    KeyOrder::Same
}

impl JsonMap {
    /// The object without members.
    pub fn new() -> (r: JsonMap)
        ensures
            r@ == Map::<Seq<char>, JsonView>::empty(),
    {
        JsonMap { entries: Vec::new() }
    }

    /// The object with `value` under `key`, in place of what stood there.
    pub fn with(self, key: &str, value: Json) -> (r: JsonMap)
        ensures
            r@ == self@.insert(key@, value@),
    {
        proof {
            use_type_invariant(&self);
        }
        let mut entries = self.entries;
        let ghost before = entries@;
        proof {
            lemma_entries_model(before);
        }
        let n: usize = entries.len();
        let mut at: usize = 0;
        while at < n
            invariant
                n == entries@.len(),
                at <= n,
                entries@ == before,
                in_order(before),
                self@ == entries_model(before),
                forall|i: int| 0 <= i < at ==> key_less(#[trigger] before[i].0@, key@),
            ensures
                at < n ==> key_less(key@, before[at as int].0@),
                at <= n,
                entries@ == before,
                forall|i: int| 0 <= i < at ==> key_less(#[trigger] before[i].0@, key@),
            decreases n - at,
        {
            match key_order(entries[at].0.as_str(), key) {
                KeyOrder::Before => {
                    at += 1;
                },
                KeyOrder::Same => {
                    entries.set(at, (key.to_string(), value));
                    proof {
                        lemma_replaced(before, entries@, at as int);
                    }
                    return JsonMap { entries };
                },
                KeyOrder::After => {
                    break;
                },
            }
        }
        entries.insert(at, (key.to_string(), value));
        proof {
            lemma_inserted(before, entries@, at as int);
        }
        JsonMap { entries }
    }

    /// The value under `key`.
    pub fn get(&self, key: &str) -> (r: Option<&Json>)
        ensures
            match r {
                Some(v) => self@.contains_key(key@) && v@ == self@[key@],
                None => !self@.contains_key(key@),
            },
    {
        proof {
            use_type_invariant(self);
            lemma_entries_model(self.entries@);
        }
        let n: usize = self.entries.len();
        let mut i: usize = 0;
        while i < n
            invariant
                n == self.entries@.len(),
                i <= n,
                forall|j: int| 0 <= j < i ==> #[trigger] self.entries@[j].0@ != key@,
                forall|k: Seq<char>| #[trigger]
                    self@.contains_key(k) <==> exists|j: int|
                        0 <= j < n && #[trigger] self.entries@[j].0@ == k,
                forall|j: int|
                    0 <= j < n ==> self@[#[trigger] self.entries@[j].0@]
                        == self.entries@[j].1.model(),
            decreases n - i,
        {
            if crate::text::same(self.entries[i].0.as_str(), key) {
                assert(self.entries@[i as int].0@ == key@);
                return Some(&self.entries[i].1);
            }
            i += 1;
        }
        None
    }

    /// The members, in the order of their keys.
    pub fn entries(&self) -> (r: &Vec<(String, Json)>)
        ensures
            lists(r@, self@),
            in_order(r@),
    {
        proof {
            use_type_invariant(self);
            lemma_lists(self.entries@);
        }
        &self.entries
    }

    /// The members, in the order of their keys, given away.
    pub fn into_entries(self) -> (r: Vec<(String, Json)>)
        ensures
            lists(r@, self@),
            in_order(r@),
    {
        proof {
            use_type_invariant(&self);
            lemma_lists(self.entries@);
        }
        self.entries
    }
}

/// Another value under a key that an object has.
proof fn lemma_replaced(before: Seq<(String, Json)>, after: Seq<(String, Json)>, at: int)
    requires
        in_order(before),
        0 <= at < before.len(),
        after == before.update(at, after[at]),
        after[at].0@ == before[at].0@,
    ensures
        in_order(after),
        entries_model(after) == entries_model(before).insert(after[at].0@, after[at].1.model()),
{
    assert forall|i: int, j: int| 0 <= i < j < after.len() implies key_less(
        #[trigger] after[i].0@,
        #[trigger] after[j].0@,
    ) by {
        assert(key_less(before[i].0@, before[j].0@));
    }
    lemma_entries_model(before);
    lemma_entries_model(after);
    let expected = entries_model(before).insert(after[at].0@, after[at].1.model());
    assert forall|k: Seq<char>| entries_model(after).contains_key(k) == expected.contains_key(
        k,
    ) by {
        if entries_model(after).contains_key(k) {
            let i = choose|i: int| 0 <= i < after.len() && #[trigger] after[i].0@ == k;
            assert(before[i].0@ == k);
        }
        if entries_model(before).contains_key(k) {
            let i = choose|i: int| 0 <= i < before.len() && #[trigger] before[i].0@ == k;
            assert(after[i].0@ == k);
        }
    }
    assert forall|k: Seq<char>| entries_model(after).contains_key(k) implies entries_model(after)[k]
        == expected[k] by {
        let i = choose|i: int| 0 <= i < after.len() && #[trigger] after[i].0@ == k;
        assert(before[i].0@ == k);
        if i != at {
            if i < at {
                lemma_keys_differ(after[i].0@, after[at].0@);
            } else {
                lemma_keys_differ(after[at].0@, after[i].0@);
            }
        }
    }
    assert(entries_model(after) =~= expected);
}

/// A key that an object lacks, put in its place.
proof fn lemma_inserted(before: Seq<(String, Json)>, after: Seq<(String, Json)>, at: int)
    requires
        in_order(before),
        0 <= at <= before.len(),
        after == before.insert(at, after[at]),
        forall|i: int| 0 <= i < at ==> key_less(#[trigger] before[i].0@, after[at].0@),
        at < before.len() ==> key_less(after[at].0@, before[at].0@),
    ensures
        in_order(after),
        entries_model(after) == entries_model(before).insert(after[at].0@, after[at].1.model()),
{
    let key = after[at].0@;
    assert forall|i: int| at <= i < before.len() implies key_less(key, #[trigger] before[i].0@) by {
        if i > at {
            lemma_bytes_transitive(
                vstd::utf8::encode_utf8(key),
                vstd::utf8::encode_utf8(before[at].0@),
                vstd::utf8::encode_utf8(before[i].0@),
            );
        }
    }
    assert forall|i: int, j: int| 0 <= i < j < after.len() implies key_less(
        #[trigger] after[i].0@,
        #[trigger] after[j].0@,
    ) by {
        let x = if i < at { i } else { i - 1 };
        let y = if j < at { j } else { j - 1 };
        if i == at {
            assert(after[j] == before[y]);
        } else if j == at {
            assert(after[i] == before[x]);
        } else {
            assert(after[i] == before[x]);
            assert(after[j] == before[y]);
            assert(key_less(before[x].0@, before[y].0@));
        }
    }
    lemma_entries_model(before);
    lemma_entries_model(after);
    let expected = entries_model(before).insert(key, after[at].1.model());
    assert forall|k: Seq<char>| entries_model(after).contains_key(k) == expected.contains_key(
        k,
    ) by {
        if entries_model(after).contains_key(k) {
            let i = choose|i: int| 0 <= i < after.len() && #[trigger] after[i].0@ == k;
            if i < at {
                assert(before[i].0@ == k);
            } else if i > at {
                assert(before[i - 1].0@ == k);
            }
        }
        if entries_model(before).contains_key(k) {
            let i = choose|i: int| 0 <= i < before.len() && #[trigger] before[i].0@ == k;
            if i < at {
                assert(after[i].0@ == k);
            } else {
                assert(after[i + 1].0@ == k);
            }
        }
    }
    assert forall|k: Seq<char>| entries_model(after).contains_key(k) implies entries_model(after)[k]
        == expected[k] by {
        let i = choose|i: int| 0 <= i < after.len() && #[trigger] after[i].0@ == k;
        if i < at {
            assert(before[i] == after[i]);
            lemma_keys_differ(before[i].0@, key);
        } else if i > at {
            assert(before[i - 1] == after[i]);
            lemma_keys_differ(key, before[i - 1].0@);
        }
    }
    assert(entries_model(after) =~= expected);
}

impl View for Json {
    type V = JsonView;

    open spec fn view(&self) -> JsonView {
        self.model()
    }
}

impl View for JsonMap {
    type V = Map<Seq<char>, JsonView>;

    open spec fn view(&self) -> Map<Seq<char>, JsonView> {
        self.model()
    }
}

/// The member of an object under a key.
pub open spec fn member(value: JsonView, key: Seq<char>) -> Option<JsonView> {
    match value {
        JsonView::Object(m) => if m.contains_key(key) {
            Some(m[key])
        } else {
            None
        },
        _ => None,
    }
}

/// The characters of a text.
pub open spec fn text_of(value: JsonView) -> Option<Seq<char>> {
    match value {
        JsonView::Text(s) => Some(s),
        _ => None,
    }
}

/// The number, where it is an integer from zero up.
pub open spec fn unsigned_of(value: JsonView) -> Option<u64> {
    match value {
        JsonView::Number(NumberView::Integer(n)) => if 0 <= n <= u64::MAX {
            Some(n as u64)
        } else {
            None
        },
        _ => None,
    }
}

/// The truth value.
pub open spec fn bool_of(value: JsonView) -> Option<bool> {
    match value {
        JsonView::Bool(b) => Some(b),
        _ => None,
    }
}

/// The items of an array.
pub open spec fn items_of(value: JsonView) -> Option<Seq<JsonView>> {
    match value {
        JsonView::Array(items) => Some(items),
        _ => None,
    }
}

/// The member of an object under a key, as a text.
pub open spec fn text_member(value: JsonView, key: Seq<char>) -> Option<Seq<char>> {
    match member(value, key) {
        Some(v) => text_of(v),
        None => None,
    }
}

/// The member of an object under a key, as an integer from zero up.
pub open spec fn unsigned_member(value: JsonView, key: Seq<char>) -> Option<u64> {
    match member(value, key) {
        Some(v) => unsigned_of(v),
        None => None,
    }
}

/// What a reference to a value, if there is one, refers to.
pub open spec fn opt_view(value: Option<&Json>) -> Option<JsonView> {
    match value {
        Some(v) => Some(v@),
        None => None,
    }
}

/// The characters of a text, if there is one.
pub open spec fn opt_str_view(value: Option<&str>) -> Option<Seq<char>> {
    match value {
        Some(s) => Some(s@),
        None => None,
    }
}

/// The characters of an owned text, if there is one.
pub open spec fn opt_text_view(value: Option<String>) -> Option<Seq<char>> {
    match value {
        Some(s) => Some(s@),
        None => None,
    }
}

/// A value without other numbers than integers, in which arrays and objects are nested
/// `depth` deep at most.
pub open spec fn plain(value: JsonView, depth: nat) -> bool
    decreases depth,
{
    match value {
        JsonView::Number(n) => n is Integer,
        JsonView::Array(items) => depth > 0 && forall|i: int|
            0 <= i < items.len() ==> plain(#[trigger] items[i], (depth - 1) as nat),
        JsonView::Object(m) => depth > 0 && forall|k: Seq<char>| #[trigger]
            m.contains_key(k) ==> plain(m[k], (depth - 1) as nat),
        _ => true,
    }
}

/// The views of a run of values.
pub open spec fn views(values: Seq<Json>) -> Seq<JsonView> {
    Seq::new(values.len(), |i: int| values[i]@)
}

/// An array is the sequence of its items' views.
pub proof fn lemma_array_view(items: Vec<Json>)
    ensures
        Json::Array(items)@ == JsonView::Array(views(items@)),
{
    reveal_with_fuel(Json::model, 2);
    assert(Json::Array(items)@->Array_0 =~= views(items@));
}

/// The integer as a JSON number.
pub open spec fn integer_view(n: int) -> JsonView {
    JsonView::Number(NumberView::Integer(n))
}

impl Json {
    /// The member under `key`, where the value is an object that has one.
    pub fn get(&self, key: &str) -> (r: Option<&Json>)
        ensures
            opt_view(r) == member(self@, key@),
    {
        match self {
            Json::Object(m) => m.get(key),
            _ => None,
        }
    }

    /// The text, where the value is one.
    pub fn as_str(&self) -> (r: Option<&str>)
        ensures
            opt_str_view(r) == text_of(self@),
    {
        match self {
            Json::Text(s) => Some(s.as_str()),
            _ => None,
        }
    }

    /// The number, where it is an integer from zero up.
    pub fn as_u64(&self) -> (r: Option<u64>)
        ensures
            r == unsigned_of(self@),
    {
        match self {
            Json::Number(JsonNumber::Unsigned(n)) => Some(*n),
            Json::Number(JsonNumber::Negative(n)) => if *n >= 0 {
                Some(*n as u64)
            } else {
                None
            },
            Json::Number(JsonNumber::Float(n)) => match n.as_i128() {
                Some(i) => if 0 <= i && i <= u64::MAX as i128 {
                    Some(i as u64)
                } else {
                    None
                },
                None => None,
            },
            _ => None,
        }
    }

    /// The truth value, where the value is one.
    pub fn as_bool(&self) -> (r: Option<bool>)
        ensures
            r == bool_of(self@),
    {
        match self {
            Json::Bool(b) => Some(*b),
            _ => None,
        }
    }

    /// The items, where the value is an array.
    pub fn as_array(&self) -> (r: Option<&Vec<Json>>)
        ensures
            match r {
                Some(items) => items_of(self@) == Some(views(items@)),
                None => items_of(self@) is None,
            },
    {
        match self {
            Json::Array(items) => {
                proof {
                    lemma_array_view(*items);
                }
                Some(items)
            },
            _ => None,
        }
    }

    /// The member under `key`, where it is a text.
    pub fn get_str(&self, key: &str) -> (r: Option<&str>)
        ensures
            opt_str_view(r) == text_member(self@, key@),
    {
        match self.get(key) {
            Some(v) => v.as_str(),
            None => None,
        }
    }

    /// The member under `key`, where it is an integer from zero up.
    pub fn get_u64(&self, key: &str) -> (r: Option<u64>)
        ensures
            r == unsigned_member(self@, key@),
    {
        match self.get(key) {
            Some(v) => v.as_u64(),
            None => None,
        }
    }

    /// A text.
    pub fn text(s: &str) -> (r: Json)
        ensures
            r@ == JsonView::Text(s@),
    {
        Json::Text(s.to_string())
    }

    /// An integer.
    pub fn integer(n: i64) -> (r: Json)
        ensures
            r@ == integer_view(n as int),
    {
        if n < 0 {
            Json::Number(JsonNumber::Negative(n))
        } else {
            Json::Number(JsonNumber::Unsigned(n as u64))
        }
    }

    /// An integer from zero up.
    pub fn unsigned(n: u64) -> (r: Json)
        ensures
            r@ == integer_view(n as int),
    {
        Json::Number(JsonNumber::Unsigned(n))
    }

    /// An object.
    pub fn object(members: JsonMap) -> (r: Json)
        ensures
            r@ == JsonView::Object(members@),
    {
        Json::Object(members)
    }

    /// An array.
    pub fn array(items: Vec<Json>) -> (r: Json)
        ensures
            r@ == JsonView::Array(views(items@)),
    {
        proof {
            lemma_array_view(items);
        }
        Json::Array(items)
    }
}

impl Clone for Json {
    fn clone(&self) -> (r: Self)
        ensures
            r@ == self@,
        decreases self,
    {
        match self {
            Json::Null => Json::Null,
            Json::Bool(b) => Json::Bool(*b),
            Json::Number(n) => Json::Number(n.clone()),
            Json::Text(s) => Json::Text(s.clone()),
            Json::Array(items) => {
                let mut out: Vec<Json> = Vec::new();
                let n: usize = items.len();
                for i in 0..n
                    invariant
                        n == items@.len(),
                        *self == Json::Array(*items),
                        out@.len() == i,
                        forall|j: int| 0 <= j < i ==> (#[trigger] out@[j])@ == items@[j]@,
                {
                    assert(decreases_to!(*self => self->Array_0));
                    assert(decreases_to!(*items => items@));
                    assert(decreases_to!(items@ => items@[i as int]));
                    out.push(items[i].clone());
                }
                proof {
                    lemma_array_view(*items);
                    lemma_array_view(out);
                    assert(views(out@) =~= views(items@));
                }
                Json::Array(out)
            },
            Json::Object(members) => {
                let n: usize = members.entries.len();
                let mut out = JsonMap::new();
                for i in 0..n
                    invariant
                        n == members.entries@.len(),
                        *self == Json::Object(*members),
                        out@ == entries_model(members.entries@.take(i as int)),
                {
                    let ghost entries = members.entries@;
                    assert(decreases_to!(*self => self->Object_0));
                    assert(decreases_to!(*members => members.entries));
                    assert(decreases_to!(members.entries => entries));
                    assert(decreases_to!(entries => entries[i as int]));
                    assert(decreases_to!(entries[i as int] => entries[i as int].1));
                    let value = members.entries[i].1.clone();
                    out = out.with(members.entries[i].0.as_str(), value);
                    assert(members.entries@.take(i + 1).drop_last() =~= members.entries@.take(
                        i as int,
                    ));
                }
                assert(members.entries@.take(n as int) =~= members.entries@);
                proof {
                    assert(out@ == entries_model(members.entries@));
                    assert(members@ == entries_model(members.entries@));
                }
                Json::Object(out)
            },
        }
    }
}

} // verus!
