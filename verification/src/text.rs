use vstd::prelude::*;

verus! {

/// `std`'s `String::push`: the character is appended to the text.
pub assume_specification[ String::push ](s: &mut String, c: char)
    ensures
        final(s)@ == old(s)@.push(c),
;

/// The characters with the Unicode property `White_Space`.
pub open spec fn white_space(c: char) -> bool {
    let n = c as u32;
    ||| 0x9 <= n <= 0xd
    ||| n == 0x20
    ||| n == 0x85
    ||| n == 0xa0
    ||| n == 0x1680
    ||| 0x2000 <= n <= 0x200a
    ||| n == 0x2028
    ||| n == 0x2029
    ||| n == 0x202f
    ||| n == 0x205f
    ||| n == 0x3000
}

/// `s` without the white space at its start.
pub open spec fn trimmed_start(s: Seq<char>) -> Seq<char>
    decreases s.len(),
{
    if s.len() > 0 && white_space(s[0]) {
        trimmed_start(s.skip(1))
    } else {
        s
    }
}

/// `s` without the white space at its end.
pub open spec fn trimmed_end(s: Seq<char>) -> Seq<char>
    decreases s.len(),
{
    if s.len() > 0 && white_space(s.last()) {
        trimmed_end(s.drop_last())
    } else {
        s
    }
}

/// `s` without the white space at either end.
pub open spec fn trimmed(s: Seq<char>) -> Seq<char> {
    trimmed_end(trimmed_start(s))
}

/// `c`, in lower case where it is an ASCII letter.
pub open spec fn ascii_lower(c: char) -> char {
    if 'A' <= c && c <= 'Z' {
        (c as u8 + 32) as char
    } else {
        c
    }
}

/// `s` with its ASCII letters in lower case.
pub open spec fn ascii_lowered(s: Seq<char>) -> Seq<char> {
    s.map_values(|c: char| ascii_lower(c))
}

/// `pattern` stands in `s` at `i`.
pub open spec fn matches_at(s: Seq<char>, pattern: Seq<char>, i: int) -> bool {
    &&& 0 <= i
    &&& i + pattern.len() <= s.len()
    &&& s.subrange(i, i + pattern.len()) == pattern
}

/// `pattern` stands somewhere in `s`.
pub open spec fn contains_text(s: Seq<char>, pattern: Seq<char>) -> bool {
    exists|i: int| matches_at(s, pattern, i)
}

/// The first place at or after `from` at which `pattern` stands in `s`.
pub open spec fn find_from(s: Seq<char>, pattern: Seq<char>, from: int) -> Option<int>
    decreases s.len() + 1 - from,
{
    if from + pattern.len() > s.len() {
        None
    } else if matches_at(s, pattern, from) {
        Some(from)
    } else {
        find_from(s, pattern, from + 1)
    }
}

/// The first place at which `pattern` stands in `s`.
pub open spec fn first_match(s: Seq<char>, pattern: Seq<char>) -> Option<int> {
    find_from(s, pattern, 0)
}

/// Where the run of characters other than white space that starts at `from` ends.
pub open spec fn run_end(s: Seq<char>, from: int) -> int
    decreases s.len() - from,
{
    if from >= s.len() || white_space(s[from]) {
        from
    } else {
        run_end(s, from + 1)
    }
}

/// The digit that stands for `n`, below ten.
pub open spec fn digit(n: nat) -> char {
    (48 + n) as char
}

/// `n` in decimal, without leading zeros.
pub open spec fn decimal_digits(n: nat) -> Seq<char>
    decreases n,
{
    if n < 10 {
        seq![digit(n)]
    } else {
        decimal_digits(n / 10).push(digit(n % 10))
    }
}

/// `first_match` gives the least place at which the pattern stands, and none only where
/// it stands nowhere.
pub proof fn lemma_find_from(s: Seq<char>, pattern: Seq<char>, from: int)
    requires
        0 <= from,
    ensures
        match find_from(s, pattern, from) {
            Some(i) => {
                &&& from <= i
                &&& matches_at(s, pattern, i)
                &&& forall|j: int| from <= j < i ==> !matches_at(s, pattern, j)
            },
            None => forall|j: int| from <= j ==> !matches_at(s, pattern, j),
        },
    decreases s.len() + 1 - from,
{
    if from + pattern.len() > s.len() {
    } else if matches_at(s, pattern, from) {
    } else {
        lemma_find_from(s, pattern, from + 1);
        assert forall|j: int| from <= j && !(from + 1 <= j) implies !matches_at(s, pattern, j) by {
            assert(j == from);
        }
    }
}

/// A text without the white space at its start is an end of it.
proof fn lemma_trimmed_start(s: Seq<char>) -> (lo: int)
    ensures
        0 <= lo <= s.len(),
        trimmed_start(s) == s.subrange(lo, s.len() as int),
    decreases s.len(),
{
    if s.len() > 0 && white_space(s[0]) {
        let lo = lemma_trimmed_start(s.skip(1));
        assert(s.skip(1).subrange(lo, s.len() - 1) =~= s.subrange(lo + 1, s.len() as int));
        lo + 1
    } else {
        assert(s.subrange(0, s.len() as int) =~= s);
        0
    }
}

/// A text without the white space at its end is a start of it.
proof fn lemma_trimmed_end(s: Seq<char>) -> (hi: int)
    ensures
        0 <= hi <= s.len(),
        trimmed_end(s) == s.subrange(0, hi),
    decreases s.len(),
{
    if s.len() > 0 && white_space(s.last()) {
        let hi = lemma_trimmed_end(s.drop_last());
        assert(s.drop_last().subrange(0, hi) =~= s.subrange(0, hi));
        hi
    } else {
        assert(s.subrange(0, s.len() as int) =~= s);
        s.len() as int
    }
}

/// A trimmed text is a stretch of the text.
pub proof fn lemma_trimmed(s: Seq<char>) -> (range: (int, int))
    ensures
        0 <= range.0 <= range.1 <= s.len(),
        trimmed(s) == s.subrange(range.0, range.1),
{
    let lo = lemma_trimmed_start(s);
    let hi = lemma_trimmed_end(trimmed_start(s));
    assert(s.subrange(lo, s.len() as int).subrange(0, hi) =~= s.subrange(lo, lo + hi));
    (lo, lo + hi)
}

/// A trimmed text neither begins nor ends in white space, so trimming it again changes
/// nothing.
pub proof fn lemma_trimmed_twice(s: Seq<char>)
    ensures
        trimmed(trimmed(s)) == trimmed(s),
        trimmed(s).len() > 0 ==> !white_space(trimmed(s)[0]) && !white_space(trimmed(s).last()),
{
    lemma_trimmed_start_clean(s);
    let t = trimmed_start(s);
    let hi = lemma_trimmed_end(t);
    lemma_trimmed_end_clean(t);
    let u = trimmed_end(t);
    if u.len() > 0 {
        assert(u[0] == t[0]);
    }
    assert(trimmed_start(u) == u);
    assert(trimmed_end(u) == u);
}

/// A text without the white space at its start begins with another character, if any.
proof fn lemma_trimmed_start_clean(s: Seq<char>)
    ensures
        trimmed_start(s).len() > 0 ==> !white_space(trimmed_start(s)[0]),
    decreases s.len(),
{
    if s.len() > 0 && white_space(s[0]) {
        lemma_trimmed_start_clean(s.skip(1));
    }
}

/// A text without the white space at its end ends with another character, if any.
proof fn lemma_trimmed_end_clean(s: Seq<char>)
    ensures
        trimmed_end(s).len() > 0 ==> !white_space(trimmed_end(s).last()),
    decreases s.len(),
{
    if s.len() > 0 && white_space(s.last()) {
        lemma_trimmed_end_clean(s.drop_last());
    }
}

/// What a run is made of, and what ends it.
pub proof fn lemma_run_end(s: Seq<char>, from: int)
    requires
        0 <= from <= s.len(),
    ensures
        from <= run_end(s, from) <= s.len(),
        forall|j: int| from <= j < run_end(s, from) ==> !white_space(#[trigger] s[j]),
        run_end(s, from) < s.len() ==> white_space(s[run_end(s, from)]),
    decreases s.len() - from,
{
    if from >= s.len() || white_space(s[from]) {
    } else {
        lemma_run_end(s, from + 1);
    }
}

/// Whether two texts are the same.
pub fn same(a: &str, b: &str) -> (r: bool)
    ensures
        r == (a@ == b@),
{
    let x: &[u8] = a.as_bytes();
    let y: &[u8] = b.as_bytes();
    proof {
        vstd::utf8::encode_utf8_decode_utf8(a@);
        vstd::utf8::encode_utf8_decode_utf8(b@);
    }
    let n: usize = x.len();
    if n != y.len() {
        return false;
    }
    let mut i: usize = 0;
    while i < n
        invariant
            n == x@.len() == y@.len(),
            i <= n,
            forall|j: int| 0 <= j < i ==> x@[j] == y@[j],
            x@ == vstd::utf8::encode_utf8(a@),
            y@ == vstd::utf8::encode_utf8(b@),
        decreases n - i,
    {
        if x[i] != y[i] {
            return false;
        }
        i += 1;
    }
    assert(x@ =~= y@);
    true
}

/// Whether a character is white space.
pub fn is_white_space(c: char) -> (r: bool)
    ensures
        r == white_space(c),
{
    let n: u32 = c as u32;
    (0x9 <= n && n <= 0xd) || n == 0x20 || n == 0x85 || n == 0xa0 || n == 0x1680 || (0x2000 <= n
        && n <= 0x200a) || n == 0x2028 || n == 0x2029 || n == 0x202f || n == 0x205f || n == 0x3000
}

/// The characters of a text, in order.
pub fn to_chars(s: &str) -> (r: Vec<char>)
    ensures
        r@ == s@,
{
    let mut out: Vec<char> = Vec::new();
    for c in it: s.chars()
        invariant
            it.seq() == s@,
            out@ == s@.take(it.index() as int),
    {
        out.push(c);
        assert(s@.take(it.index() as int).push(c) =~= s@.take(it.index() as int + 1));
    }
    assert(s@.take(s@.len() as int) =~= s@);
    out
}

/// The text that a run of characters spells.
pub fn from_chars(chars: &Vec<char>) -> (r: String)
    ensures
        r@ == chars@,
{
    let mut out = String::new();
    let n: usize = chars.len();
    for i in 0..n
        invariant
            n == chars@.len(),
            out@ == chars@.take(i as int),
    {
        out.push(chars[i]);
        assert(chars@.take(i as int).push(chars@[i as int]) =~= chars@.take(i + 1));
    }
    assert(chars@.take(n as int) =~= chars@);
    out
}

/// A text without the white space at either end.
pub fn trim(s: &str) -> (r: String)
    ensures
        r@ == trimmed(s@),
{
    let chars = to_chars(s);
    let n: usize = chars.len();
    let mut lo: usize = 0;
    assert(chars@.skip(0) =~= chars@);
    while lo < n && is_white_space(chars[lo])
        invariant
            n == chars@.len(),
            lo <= n,
            trimmed_start(chars@) == trimmed_start(chars@.skip(lo as int)),
        decreases n - lo,
    {
        assert(chars@.skip(lo as int).skip(1) =~= chars@.skip(lo + 1));
        lo += 1;
    }
    let ghost body = chars@.skip(lo as int);
    assert(trimmed_start(chars@) == body);
    let mut hi: usize = n;
    assert(chars@.subrange(lo as int, hi as int) =~= body);
    while lo < hi && is_white_space(chars[hi - 1])
        invariant
            n == chars@.len(),
            lo <= hi <= n,
            trimmed_end(body) == trimmed_end(chars@.subrange(lo as int, hi as int)),
        decreases hi - lo,
    {
        assert(chars@.subrange(lo as int, hi as int).drop_last() =~= chars@.subrange(
            lo as int,
            hi - 1,
        ));
        hi -= 1;
    }
    let ghost rest = chars@.subrange(lo as int, hi as int);
    assert(trimmed_end(rest) == rest);
    let mut out = String::new();
    for i in lo..hi
        invariant
            hi <= chars@.len(),
            lo <= i <= hi,
            out@ == chars@.subrange(lo as int, i as int),
    {
        out.push(chars[i]);
        assert(chars@.subrange(lo as int, i as int).push(chars@[i as int]) =~= chars@.subrange(
            lo as int,
            i + 1,
        ));
    }
    out
}

/// A text with its ASCII letters in lower case.
pub fn to_ascii_lowercase(s: &str) -> (r: String)
    ensures
        r@ == ascii_lowered(s@),
{
    let mut out = String::new();
    for c in it: s.chars()
        invariant
            it.seq() == s@,
            out@ == ascii_lowered(s@.take(it.index() as int)),
    {
        if 'A' <= c && c <= 'Z' {
            out.push((c as u8 + 32) as char);
        } else {
            out.push(c);
        }
        assert(ascii_lowered(s@.take(it.index() as int)).push(ascii_lower(c)) =~= ascii_lowered(
            s@.take(it.index() as int + 1),
        ));
    }
    assert(s@.take(s@.len() as int) =~= s@);
    out
}

/// Whether `pattern` stands in `chars` at `at`.
fn stands_at(chars: &Vec<char>, pattern: &Vec<char>, at: usize) -> (r: bool)
    requires
        at + pattern@.len() <= chars@.len(),
    ensures
        r == matches_at(chars@, pattern@, at as int),
{
    let n: usize = pattern.len();
    let total: usize = chars.len();
    let mut i: usize = 0;
    while i < n
        invariant
            n == pattern@.len(),
            total == chars@.len(),
            at + n <= total,
            i <= n,
            forall|j: int| 0 <= j < i ==> chars@[at + j] == pattern@[j],
        decreases n - i,
    {
        if chars[at + i] != pattern[i] {
            assert(chars@.subrange(at as int, at + n)[i as int] != pattern@[i as int]);
            return false;
        }
        i += 1;
    }
    assert(chars@.subrange(at as int, at + n) =~= pattern@);
    true
}

/// The first place at which `pattern` stands in `chars`.
pub fn find(chars: &Vec<char>, pattern: &str) -> (r: Option<usize>)
    ensures
        match r {
            Some(i) => first_match(chars@, pattern@) == Some(i as int),
            None => first_match(chars@, pattern@) is None,
        },
{
    let p = to_chars(pattern);
    let n: usize = chars.len();
    let m: usize = p.len();
    if m > n {
        return None;
    }
    let mut at: usize = 0;
    while at <= n - m
        invariant
            n == chars@.len(),
            m == p@.len(),
            m <= n,
            at <= n - m + 1,
            p@ == pattern@,
            first_match(chars@, pattern@) == find_from(chars@, pattern@, at as int),
        decreases n - m + 1 - at,
    {
        if stands_at(chars, &p, at) {
            return Some(at);
        }
        if at == n - m {
            assert(find_from(chars@, pattern@, at + 1) is None);
            return None;
        }
        at += 1;
    }
    None
}

/// Whether `pattern` stands somewhere in `s`.
pub fn contains(s: &str, pattern: &str) -> (r: bool)
    ensures
        r == contains_text(s@, pattern@),
{
    let chars = to_chars(s);
    proof {
        lemma_find_from(s@, pattern@, 0);
    }
    find(&chars, pattern).is_some()
}

/// Where the run of characters other than white space that starts at `from` ends.
pub fn end_of_run(chars: &Vec<char>, from: usize) -> (r: usize)
    requires
        from <= chars@.len(),
    ensures
        r == run_end(chars@, from as int),
{
    let n: usize = chars.len();
    let mut at: usize = from;
    while at < n && !is_white_space(chars[at])
        invariant
            n == chars@.len(),
            at <= n,
            run_end(chars@, from as int) == run_end(chars@, at as int),
        decreases n - at,
    {
        at += 1;
    }
    at
}

/// A number in decimal.
pub fn decimal(n: u64) -> (r: String)
    ensures
        r@ == decimal_digits(n as nat),
    decreases n,
{
    let last: u8 = (n % 10) as u8;
    let c: char = (48u8 + last) as char;
    if n < 10 {
        let mut out = String::new();
        out.push(c);
        assert(out@ =~= seq![digit(n as nat)]);
        out
    } else {
        let mut out = decimal(n / 10);
        out.push(c);
        out
    }
}

} // verus!
