use crate::text::{
    ascii_lowered, contains, contains_text, decimal, decimal_digits, end_of_run, find,
    is_white_space, lemma_find_from, lemma_run_end, matches_at, same, to_ascii_lowercase, trim,
    trimmed, trimmed_end, trimmed_start, white_space,
};
use vstd::prelude::*;

verus! {

/// Of the ASCII characters, the space and those from the tab to the carriage return are white
/// space, and no other.
pub proof fn law_ascii_white_space(c: char, r: bool)
    requires
        call_ensures(is_white_space, (c,), r),
        c <= '\u{7f}',
    ensures
        r <==> c == ' ' || '\t' <= c <= '\r',
{
}

/// Two texts are the same where they have the same characters, and only there.
pub proof fn law_same_by_characters(a: &str, b: &str, r: bool)
    requires
        call_ensures(same, (a, b), r),
    ensures
        r <==> a@.len() == b@.len() && forall|i: int| 0 <= i < a@.len() ==> a@[i] == b@[i],
{
    if a@.len() == b@.len() && forall|i: int| 0 <= i < a@.len() ==> a@[i] == b@[i] {
        assert(a@ =~= b@);
    }
}

/// `t` is what is left of `s` when the white space at both ends is gone, and nothing else.
pub open spec fn is_trim_of(t: Seq<char>, s: Seq<char>) -> bool {
    &&& exists|lo: int, hi: int|
        0 <= lo <= hi <= s.len() && t == #[trigger] s.subrange(lo, hi) && (forall|i: int|
            0 <= i < lo || hi <= i < s.len() ==> white_space(#[trigger] s[i]))
    &&& t.len() > 0 ==> !white_space(t[0]) && !white_space(t[t.len() - 1])
}

/// A text of white space alone, or of nothing.
pub open spec fn blank(s: Seq<char>) -> bool {
    forall|i: int| 0 <= i < s.len() ==> white_space(#[trigger] s[i])
}

/// What `trimmed_start` takes away is white space, and it takes it all.
proof fn lemma_start_trimmed(s: Seq<char>) -> (lo: int)
    ensures
        0 <= lo <= s.len(),
        trimmed_start(s) == s.subrange(lo, s.len() as int),
        forall|i: int| 0 <= i < lo ==> white_space(#[trigger] s[i]),
        lo < s.len() ==> !white_space(s[lo]),
    decreases s.len(),
{
    if s.len() > 0 && white_space(s[0]) {
        let rest = s.skip(1);
        let lo = lemma_start_trimmed(rest);
        assert(rest.subrange(lo, rest.len() as int) =~= s.subrange(lo + 1, s.len() as int));
        assert forall|i: int| 0 <= i < lo + 1 implies white_space(#[trigger] s[i]) by {
            if i > 0 {
                assert(rest[i - 1] == s[i]);
            }
        }
        if lo + 1 < s.len() {
            assert(rest[lo] == s[lo + 1]);
        }
        lo + 1
    } else {
        assert(s.subrange(0, s.len() as int) =~= s);
        0
    }
}

/// What `trimmed_end` takes away is white space, and it takes it all.
proof fn lemma_end_trimmed(s: Seq<char>) -> (hi: int)
    ensures
        0 <= hi <= s.len(),
        trimmed_end(s) == s.subrange(0, hi),
        forall|i: int| hi <= i < s.len() ==> white_space(#[trigger] s[i]),
        hi > 0 ==> !white_space(s[hi - 1]),
    decreases s.len(),
{
    if s.len() > 0 && white_space(s.last()) {
        let rest = s.drop_last();
        let hi = lemma_end_trimmed(rest);
        assert(rest.subrange(0, hi) =~= s.subrange(0, hi));
        assert forall|i: int| hi <= i < s.len() implies white_space(#[trigger] s[i]) by {
            if i < rest.len() {
                assert(rest[i] == s[i]);
            }
        }
        if hi > 0 {
            assert(rest[hi - 1] == s[hi - 1]);
        }
        hi
    } else {
        assert(s.subrange(0, s.len() as int) =~= s);
        s.len() as int
    }
}

/// Trimming takes the white space at both ends away, all of it and nothing else.
pub proof fn law_trimmed(s: Seq<char>)
    ensures
        is_trim_of(trimmed(s), s),
        blank(s) <==> trimmed(s).len() == 0,
{
    let lo = lemma_start_trimmed(s);
    let body = trimmed_start(s);
    let n = lemma_end_trimmed(body);
    let hi = lo + n;
    let t = trimmed(s);
    assert(body.subrange(0, n) =~= s.subrange(lo, hi));
    assert forall|i: int| 0 <= i < lo || hi <= i < s.len() implies white_space(#[trigger] s[i]) by {
        if i >= hi {
            assert(body[i - lo] == s[i]);
        }
    }
    assert(t == s.subrange(lo, hi));
    if t.len() > 0 {
        assert(t[0] == s[lo]);
        assert(t[t.len() - 1] == body[n - 1]);
    } else {
        assert(lo == hi);
    }
}

/// `trim` gives what is left when the white space at both ends is gone.
pub proof fn law_trim(s: &str, r: String)
    requires
        call_ensures(trim, (s,), r),
    ensures
        is_trim_of(r@, s@),
{
    law_trimmed(s@);
}

/// Only what is between the white space at both ends matters to a trimmed text.
pub proof fn law_trim_is_unique(s: Seq<char>, t: Seq<char>)
    requires
        is_trim_of(t, s),
    ensures
        trimmed(s) == t,
{
    law_trimmed(s);
    let (a, b) = choose|lo: int, hi: int|
        0 <= lo <= hi <= s.len() && t == #[trigger] s.subrange(lo, hi) && (forall|i: int|
            0 <= i < lo || hi <= i < s.len() ==> white_space(#[trigger] s[i]));
    let u = trimmed(s);
    let (c, d) = choose|lo: int, hi: int|
        0 <= lo <= hi <= s.len() && u == #[trigger] s.subrange(lo, hi) && (forall|i: int|
            0 <= i < lo || hi <= i < s.len() ==> white_space(#[trigger] s[i]));
    if t.len() > 0 {
        assert(t[0] == s[a] && t[t.len() - 1] == s[b - 1]);
        assert(c <= a && b <= d);
        assert(u[0] == s[c] && u[u.len() - 1] == s[d - 1]);
        assert(a <= c && d <= b);
    } else {
        assert forall|i: int| 0 <= i < s.len() implies white_space(#[trigger] s[i]) by {}
        assert(u =~= t);
    }
}

/// A text in lower case has the capitals from A to Z replaced by the letter thirty-two places
/// on, and every other character as it was.
pub proof fn law_lower_case(s: &str, r: String)
    requires
        call_ensures(to_ascii_lowercase, (s,), r),
    ensures
        r@ == ascii_lowered(s@),
        r@.len() == s@.len(),
        forall|i: int|
            0 <= i < s@.len() ==> (if 'A' <= s@[i] <= 'Z' {
                #[trigger] r@[i] as int == s@[i] as int + 32
            } else {
                r@[i] == s@[i]
            }),
{
}

/// Texts that differ in the case of ASCII letters alone are the same in lower case, and a text
/// without capitals is its own.
pub proof fn law_lower_case_folds(s: Seq<char>)
    ensures
        ascii_lowered(ascii_lowered(s)) == ascii_lowered(s),
        (forall|i: int| 0 <= i < s.len() ==> !('A' <= #[trigger] s[i] <= 'Z')) ==> ascii_lowered(s)
            == s,
{
    assert(ascii_lowered(ascii_lowered(s)) =~= ascii_lowered(s));
    if forall|i: int| 0 <= i < s.len() ==> !('A' <= #[trigger] s[i] <= 'Z') {
        assert(ascii_lowered(s) =~= s);
    }
}

/// A pattern stands in a text where the text is the pattern with something before it and
/// something behind it.
pub proof fn law_contains(s: Seq<char>, pattern: Seq<char>)
    ensures
        contains_text(s, pattern) <==> exists|a: Seq<char>, b: Seq<char>|
            s == #[trigger] (a + pattern + b),
{
    if contains_text(s, pattern) {
        let i = choose|i: int| matches_at(s, pattern, i);
        let a = s.take(i);
        let b = s.skip(i + pattern.len());
        assert(s =~= a + s.subrange(i, i + pattern.len()) + b);
        assert(s == a + pattern + b);
    }
    if exists|a: Seq<char>, b: Seq<char>| s == #[trigger] (a + pattern + b) {
        let (a, b) = choose|a: Seq<char>, b: Seq<char>| s == #[trigger] (a + pattern + b);
        assert(s.subrange(a.len() as int, (a.len() + pattern.len()) as int) =~= pattern);
        assert(matches_at(s, pattern, a.len() as int));
    }
}

/// `contains` says whether a pattern stands in a text, wherever it does.
pub proof fn law_contains_anywhere(s: &str, pattern: &str, r: bool)
    requires
        call_ensures(contains, (s, pattern), r),
    ensures
        r <==> exists|a: Seq<char>, b: Seq<char>| s@ == #[trigger] (a + pattern@ + b),
{
    law_contains(s@, pattern@);
}

/// `find` gives the first place at which a pattern stands: it stands there, and at no place
/// before; and where it gives none, the pattern stands nowhere.
pub proof fn law_find_is_first(chars: &Vec<char>, pattern: &str, r: Option<usize>)
    requires
        call_ensures(find, (chars, pattern), r),
    ensures
        match r {
            Some(at) => {
                &&& at + pattern@.len() <= chars@.len()
                &&& chars@.subrange(at as int, at + pattern@.len()) == pattern@
                &&& pattern@.len() > 0 ==> !contains_text(
                    chars@.take(at + pattern@.len() - 1),
                    pattern@,
                )
                &&& pattern@.len() == 0 ==> at == 0
            },
            None => !contains_text(chars@, pattern@),
        },
{
    lemma_find_from(chars@, pattern@, 0);
    if let Some(at) = r {
        if pattern@.len() > 0 {
            let front = chars@.take(at + pattern@.len() - 1);
            if contains_text(front, pattern@) {
                let i = choose|i: int| matches_at(front, pattern@, i);
                assert(front.subrange(i, i + pattern@.len()) =~= chars@.subrange(
                    i,
                    i + pattern@.len(),
                ));
                assert(matches_at(chars@, pattern@, i));
            }
        } else {
            assert(chars@.subrange(0, 0) =~= pattern@);
            assert(matches_at(chars@, pattern@, 0));
        }
    }
}

/// A run goes on to the next white space, or to the end of the text.
pub proof fn law_run_ends_at_white_space(chars: &Vec<char>, from: usize, r: usize)
    requires
        from <= chars@.len(),
        call_ensures(end_of_run, (chars, from), r),
    ensures
        from <= r <= chars@.len(),
        forall|i: int| from <= i < r ==> !white_space(#[trigger] chars@[i]),
        r < chars@.len() ==> white_space(chars@[r as int]),
{
    lemma_run_end(chars@, from as int);
}

/// The number that a run of decimal digits stands for.
pub open spec fn number_read(s: Seq<char>) -> int
    decreases s.len(),
{
    if s.len() == 0 {
        0
    } else {
        10 * number_read(s.drop_last()) + (s.last() as int - '0' as int)
    }
}

/// A number in decimal is made of digits, begins with zero only where it is zero, and reads as
/// the number.
pub proof fn law_decimal_reads_back(n: nat)
    ensures
        number_read(decimal_digits(n)) == n,
        decimal_digits(n).len() > 0,
        forall|i: int| 0 <= i < decimal_digits(n).len() ==> '0' <= #[trigger] decimal_digits(n)[i] <= '9',
        n > 0 ==> decimal_digits(n)[0] != '0',
        n < 10 ==> decimal_digits(n).len() == 1,
    decreases n,
{
    let s = decimal_digits(n);
    if n < 10 {
        assert(s.drop_last() =~= Seq::empty());
        reveal_with_fuel(number_read, 2);
    } else {
        law_decimal_reads_back(n / 10);
        assert(s.drop_last() =~= decimal_digits(n / 10));
        assert(s[0] == decimal_digits(n / 10)[0]);
    }
}

/// `decimal` writes a number so that it reads back.
pub proof fn law_decimal(n: u64, r: String)
    requires
        call_ensures(decimal, (n,), r),
    ensures
        number_read(r@) == n,
        r@.len() > 0,
        forall|i: int| 0 <= i < r@.len() ==> '0' <= #[trigger] r@[i] <= '9',
        n > 0 ==> r@[0] != '0',
        n < 10 ==> r@.len() == 1,
{
    law_decimal_reads_back(n as nat);
}

} // verus!
