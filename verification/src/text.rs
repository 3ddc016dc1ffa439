//! Whitespace at the ends of a text.

use vstd::prelude::*;
use vstd::string::StrSliceExecFns;

verus! {

/// Whether a character is white space: one of the code points that Unicode
/// gives the property `White_Space`.
pub open spec fn is_space(c: char) -> bool {
    let n = c as u32;
    ||| 0x09 <= n <= 0x0D
    ||| n == 0x20
    ||| n == 0x85
    ||| n == 0xA0
    ||| n == 0x1680
    ||| 0x2000 <= n <= 0x200A
    ||| n == 0x2028
    ||| n == 0x2029
    ||| n == 0x202F
    ||| n == 0x205F
    ||| n == 0x3000
}

/// A text without the white space at its start.
pub open spec fn strip_start(s: Seq<char>) -> Seq<char>
    decreases s.len(),
{
    if s.len() > 0 && is_space(s[0]) {
        strip_start(s.drop_first())
    } else {
        s
    }
}

/// A text without the white space at its end.
pub open spec fn strip_end(s: Seq<char>) -> Seq<char>
    decreases s.len(),
{
    if s.len() > 0 && is_space(s.last()) {
        strip_end(s.drop_last())
    } else {
        s
    }
}

/// A text without the white space at its start and at its end.
pub open spec fn stripped(s: Seq<char>) -> Seq<char> {
    strip_end(strip_start(s))
}

/// Returns whether a character is white space.
pub fn is_whitespace(c: char) -> (b: bool)
    ensures
        b == is_space(c),
{
    let n: u32 = c as u32;
    (0x09 <= n && n <= 0x0D) || n == 0x20 || n == 0x85 || n == 0xA0 || n == 0x1680 || (0x2000 <= n
        && n <= 0x200A) || n == 0x2028 || n == 0x2029 || n == 0x202F || n == 0x205F || n == 0x3000
}

/// Returns the part of `text` that is left when the white space at its start
/// and at its end is taken away.
pub fn trim(text: &str) -> (inner: &str)
    ensures
        inner@ == stripped(text@),
{
    let n: usize = text.unicode_len();
    let mut start: usize = 0;
    assert(text@.skip(0) =~= text@);
    while start < n && is_whitespace(text.get_char(start))
        invariant
            start <= n,
            n == text@.len(),
            strip_start(text@) == strip_start(text@.skip(start as int)),
        decreases n - start,
    {
        proof {
            assert(text@.skip(start as int).drop_first() =~= text@.skip(start + 1));
        }
        start = start + 1;
    }
    assert(strip_start(text@) == text@.skip(start as int));
    assert(text@.skip(start as int) =~= text@.subrange(start as int, n as int));
    let mut end: usize = n;
    while end > start && is_whitespace(text.get_char(end - 1))
        invariant
            start <= end <= n,
            n == text@.len(),
            stripped(text@) == strip_end(text@.subrange(start as int, end as int)),
        decreases end,
    {
        proof {
            assert(text@.subrange(start as int, end as int).drop_last() =~= text@.subrange(
                start as int,
                end - 1,
            ));
        }
        end = end - 1;
    }
    text.substring_char(start, end)
}

/// What stripping keeps lies between two positions of the text; all before
/// the first and all from the second on is white space, and what is kept
/// neither starts nor ends with white space.
pub proof fn stripped_is_the_core(s: Seq<char>)
    ensures
        exists|a: int, b: int|
            {
                &&& 0 <= a <= b <= s.len()
                &&& #[trigger] s.subrange(a, b) == stripped(s)
                &&& forall|i: int| 0 <= i < a ==> is_space(s[i])
                &&& forall|i: int| b <= i < s.len() ==> is_space(s[i])
            },
        stripped(s).len() > 0 ==> !is_space(stripped(s).first()) && !is_space(stripped(s).last()),
{
    let a = leading_spaces(s);
    let mid = strip_start(s);
    strip_start_is_skip(s);
    let b0 = kept_before_trailing(mid);
    strip_end_is_take(mid);
    let b = a + b0;
    assert(s.subrange(a, b) =~= mid.take(b0));
    assert forall|i: int| b <= i < s.len() implies is_space(s[i]) by {
        assert(mid[i - a] == s[i]);
    }
    if stripped(s).len() > 0 {
        assert(stripped(s).first() == mid[0]);
    }
}

/// The number of white-space characters at the start of a text.
spec fn leading_spaces(s: Seq<char>) -> int
    decreases s.len(),
{
    if s.len() > 0 && is_space(s[0]) {
        1 + leading_spaces(s.drop_first())
    } else {
        0
    }
}

/// The length of a text without the white space at its end.
spec fn kept_before_trailing(s: Seq<char>) -> int
    decreases s.len(),
{
    if s.len() > 0 && is_space(s.last()) {
        kept_before_trailing(s.drop_last())
    } else {
        s.len() as int
    }
}

proof fn strip_start_is_skip(s: Seq<char>)
    ensures
        0 <= leading_spaces(s) <= s.len(),
        strip_start(s) == s.skip(leading_spaces(s)),
        forall|i: int| 0 <= i < leading_spaces(s) ==> is_space(s[i]),
        strip_start(s).len() > 0 ==> !is_space(strip_start(s)[0]),
    decreases s.len(),
{
    if s.len() > 0 && is_space(s[0]) {
        let rest = s.drop_first();
        strip_start_is_skip(rest);
        assert(rest.skip(leading_spaces(rest)) =~= s.skip(leading_spaces(s)));
        assert forall|i: int| 0 <= i < leading_spaces(s) implies is_space(s[i]) by {
            if i > 0 {
                assert(rest[i - 1] == s[i]);
            }
        }
    } else {
        assert(s.skip(0) =~= s);
    }
}

proof fn strip_end_is_take(s: Seq<char>)
    ensures
        0 <= kept_before_trailing(s) <= s.len(),
        strip_end(s) == s.take(kept_before_trailing(s)),
        forall|i: int| kept_before_trailing(s) <= i < s.len() ==> is_space(s[i]),
        strip_end(s).len() > 0 ==> !is_space(strip_end(s).last()),
        strip_end(s).len() > 0 ==> strip_end(s)[0] == s[0],
    decreases s.len(),
{
    if s.len() > 0 && is_space(s.last()) {
        let rest = s.drop_last();
        strip_end_is_take(rest);
        assert(rest.take(kept_before_trailing(rest)) =~= s.take(kept_before_trailing(s)));
        assert forall|i: int| kept_before_trailing(s) <= i < s.len() implies is_space(s[i]) by {
            if i < rest.len() {
                assert(rest[i] == s[i]);
            }
        }
    } else {
        assert(s.take(s.len() as int) =~= s);
    }
}

} // verus!
