//! Text operations on which the extraction rests: removal of thousands
//! separators, substring search and comparison of trimmed text.

use vstd::prelude::*;
use vstd::string::*;

verus! {

/// `String::push` appends one character to the end of the string.
pub assume_specification[ String::push ](s: &mut String, c: char)
    ensures
        final(s)@ == old(s)@.push(c),
;

/// The character that groups digits by thousands in displayed numbers.
pub open spec fn is_separator(c: char) -> bool {
    c == ','
}

/// `s` with every thousands separator left out, the other characters in order.
pub open spec fn without_separators(s: Seq<char>) -> Seq<char>
    decreases s.len(),
{
    if s.len() == 0 {
        Seq::empty()
    } else if is_separator(s.last()) {
        without_separators(s.drop_last())
    } else {
        without_separators(s.drop_last()).push(s.last())
    }
}

/// Whether `needle` stands in `hay` at position `at`.
pub open spec fn occurs_at(hay: Seq<char>, needle: Seq<char>, at: int) -> bool {
    0 <= at && at + needle.len() <= hay.len() && hay.subrange(at, at + needle.len()) == needle
}

/// Whether `needle` stands somewhere in `hay`.
pub open spec fn contains_text(hay: Seq<char>, needle: Seq<char>) -> bool {
    exists|at: int| occurs_at(hay, needle, at)
}

/// The ten decimal digits.
pub open spec fn is_decimal_digit(c: char) -> bool {
    0x30 <= c as u32 && c as u32 <= 0x39
}

/// Whether a decimal digit stands somewhere in `s`.
pub open spec fn has_decimal_digit(s: Seq<char>) -> bool {
    exists|i: int| 0 <= i < s.len() && is_decimal_digit(#[trigger] s[i])
}

/// The characters with the Unicode property White_Space.
pub open spec fn is_space(c: char) -> bool {
    let u = c as u32;
    (0x09 <= u && u <= 0x0D) || u == 0x20 || u == 0x85 || u == 0xA0 || u == 0x1680 || (0x2000 <= u
        && u <= 0x200A) || u == 0x2028 || u == 0x2029 || u == 0x202F || u == 0x205F || u == 0x3000
}

/// `s` without its leading white space.
pub open spec fn trim_start(s: Seq<char>) -> Seq<char>
    decreases s.len(),
{
    if s.len() > 0 && is_space(s.first()) {
        trim_start(s.drop_first())
    } else {
        s
    }
}

/// `s` without its trailing white space.
pub open spec fn trim_end(s: Seq<char>) -> Seq<char>
    decreases s.len(),
{
    if s.len() > 0 && is_space(s.last()) {
        trim_end(s.drop_last())
    } else {
        s
    }
}

/// `s` without leading and trailing white space.
pub open spec fn trimmed(s: Seq<char>) -> Seq<char> {
    trim_end(trim_start(s))
}

/// Removing the separators from text that has none changes nothing.
pub proof fn lemma_without_separators_fixed(s: Seq<char>)
    requires
        forall|i: int| 0 <= i < s.len() ==> !is_separator(#[trigger] s[i]),
    ensures
        without_separators(s) == s,
    decreases s.len(),
{
    if s.len() > 0 {
        lemma_without_separators_fixed(s.drop_last());
        assert(s.drop_last().push(s.last()) =~= s);
    }
}

/// No separator is left in the stripped text.
pub proof fn lemma_without_separators_clean(s: Seq<char>)
    ensures
        forall|i: int|
            0 <= i < without_separators(s).len() ==> !is_separator(
                #[trigger] without_separators(s)[i],
            ),
    decreases s.len(),
{
    if s.len() > 0 {
        lemma_without_separators_clean(s.drop_last());
        let rest = without_separators(s.drop_last());
        let all = without_separators(s);
        assert forall|i: int| 0 <= i < all.len() implies !is_separator(#[trigger] all[i]) by {
            if i < rest.len() {
                assert(all[i] == rest[i]);
            }
        }
    }
}

/// Stripping is idempotent: a second pass gives what the first gave.
pub proof fn lemma_without_separators_idempotent(s: Seq<char>)
    ensures
        without_separators(without_separators(s)) == without_separators(s),
{
    lemma_without_separators_clean(s);
    lemma_without_separators_fixed(without_separators(s));
}

/// Removes the thousands separators from `text`.
pub fn strip_separators(text: &str) -> (r: String)
    ensures
        r@ == without_separators(text@),
{
    let n: usize = text.unicode_len();
    let mut out = String::new();
    let mut i: usize = 0;
    while i < n
        invariant
            n == text@.len(),
            i <= n,
            out@ == without_separators(text@.take(i as int)),
        decreases n - i,
    {
        let c = text.get_char(i);
        proof {
            assert(text@.take(i + 1).drop_last() =~= text@.take(i as int));
        }
        if c != ',' {
            out.push(c);
        }
        i += 1;
    }
    proof {
        assert(text@.take(n as int) =~= text@);
    }
    out
}

/// Whether `needle` occurs in `hay`.
pub fn contains(hay: &str, needle: &str) -> (r: bool)
    ensures
        r == contains_text(hay@, needle@),
{
    let n: usize = hay.unicode_len();
    let m: usize = needle.unicode_len();
    if m > n {
        return false;
    }
    let mut at: usize = 0;
    while at <= n - m
        invariant
            n == hay@.len(),
            m == needle@.len(),
            m <= n,
            at <= n - m,
            forall|k: int| 0 <= k < at ==> !occurs_at(hay@, needle@, k),
        decreases n - m - at,
    {
        let mut j: usize = 0;
        let mut same = true;
        while j < m && same
            invariant
                n == hay@.len(),
                m == needle@.len(),
                at + m <= n,
                j <= m,
                same ==> forall|k: int| 0 <= k < j ==> hay@[at + k] == needle@[k],
                !same ==> !occurs_at(hay@, needle@, at as int),
            decreases m - j + if same { 1int } else { 0int },
        {
            if hay.get_char(at + j) != needle.get_char(j) {
                same = false;
                proof {
                    assert(hay@.subrange(at as int, at + m)[j as int] == hay@[at + j]);
                }
            } else {
                j += 1;
            }
        }
        if same {
            proof {
                assert(hay@.subrange(at as int, at + m) =~= needle@);
                assert(occurs_at(hay@, needle@, at as int));
            }
            return true;
        }
        if at == n - m {
            return false;
        }
        at += 1;
    }
    false
}

/// Whether a decimal digit stands in `text`. Text without one names no
/// number, whatever else it spells.
pub fn has_digit(text: &str) -> (r: bool)
    ensures
        r == has_decimal_digit(text@),
{
    let n: usize = text.unicode_len();
    let mut i: usize = 0;
    while i < n
        invariant
            n == text@.len(),
            i <= n,
            forall|k: int| 0 <= k < i ==> !is_decimal_digit(#[trigger] text@[k]),
        decreases n - i,
    {
        let u: u32 = text.get_char(i) as u32;
        if 0x30 <= u && u <= 0x39 {
            return true;
        }
        i += 1;
    }
    false
}

/// Whether `c` is white space.
pub fn is_whitespace(c: char) -> (r: bool)
    ensures
        r == is_space(c),
{
    let u: u32 = c as u32;
    (0x09 <= u && u <= 0x0D) || u == 0x20 || u == 0x85 || u == 0xA0 || u == 0x1680 || (0x2000 <= u
        && u <= 0x200A) || u == 0x2028 || u == 0x2029 || u == 0x202F || u == 0x205F || u == 0x3000
}

/// Whether `text`, without its leading and trailing white space, is `label`.
pub fn trimmed_equals(text: &str, label: &str) -> (r: bool)
    ensures
        r == (trimmed(text@) == label@),
{
    let n: usize = text.unicode_len();
    let m: usize = label.unicode_len();
    let mut a: usize = 0;
    proof {
        assert(text@.subrange(0, n as int) =~= text@);
    }
    while a < n && is_whitespace(text.get_char(a))
        invariant
            n == text@.len(),
            a <= n,
            trim_start(text@) == trim_start(text@.subrange(a as int, n as int)),
        decreases n - a,
    {
        proof {
            assert(text@.subrange(a as int, n as int).drop_first() =~= text@.subrange(
                a + 1,
                n as int,
            ));
        }
        a += 1;
    }
    let mut b: usize = n;
    while b > a && is_whitespace(text.get_char(b - 1))
        invariant
            n == text@.len(),
            a <= b <= n,
            trim_start(text@) == text@.subrange(a as int, n as int),
            trimmed(text@) == trim_end(text@.subrange(a as int, b as int)),
        decreases b - a,
    {
        proof {
            assert(text@.subrange(a as int, b as int).drop_last() =~= text@.subrange(
                a as int,
                b - 1,
            ));
        }
        b -= 1;
    }
    assert(trimmed(text@) == text@.subrange(a as int, b as int));
    if b - a != m {
        return false;
    }
    let mut j: usize = 0;
    while j < m
        invariant
            n == text@.len(),
            m == label@.len(),
            a <= b <= n,
            b - a == m,
            j <= m,
            trimmed(text@) == text@.subrange(a as int, b as int),
            forall|k: int| 0 <= k < j ==> text@[a + k] == label@[k],
        decreases m - j,
    {
        if text.get_char(a + j) != label.get_char(j) {
            proof {
                assert(text@.subrange(a as int, b as int)[j as int] == text@[a + j]);
            }
            return false;
        }
        j += 1;
    }
    proof {
        assert(text@.subrange(a as int, b as int) =~= label@);
    }
    true
}

} // verus!
