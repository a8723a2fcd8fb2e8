//! Runs of characters of one class, and the trimming of white space.

use vstd::prelude::*;

verus! {

/// Whether `c` is white space in the sense of `char::is_whitespace`: the
/// Unicode property `White_Space`.
pub uninterp spec fn is_white_space(c: char) -> bool;

/// `char::is_whitespace` of std. Trusted: the result is the Unicode
/// `White_Space` property of `c`, which the library knows only by name.
#[verifier::external_body]
pub(crate) fn is_whitespace(c: char) -> (b: bool)
    ensures
        b == is_white_space(c),
{
    c.is_whitespace()
}

/// Every character of `s` belongs to `class`.
pub open spec fn all_in(s: Seq<char>, class: spec_fn(char) -> bool) -> bool {
    forall|i: int| 0 <= i < s.len() ==> class(#[trigger] s[i])
}

/// The length of the longest prefix of `s` whose characters all belong to
/// `class`.
pub open spec fn leading(s: Seq<char>, class: spec_fn(char) -> bool) -> nat
    decreases s.len(),
{
    if s.len() > 0 && class(s.first()) {
        1 + leading(s.drop_first(), class)
    } else {
        0
    }
}

/// The length of the longest suffix of `s` whose characters all belong to
/// `class`.
pub open spec fn trailing(s: Seq<char>, class: spec_fn(char) -> bool) -> nat
    decreases s.len(),
{
    if s.len() > 0 && class(s.last()) {
        1 + trailing(s.drop_last(), class)
    } else {
        0
    }
}

/// The prefix that `leading` measures lies within `s`, holds only characters
/// of `class`, and ends where `s` ends or another character stands.
pub proof fn lemma_leading_bounds(s: Seq<char>, class: spec_fn(char) -> bool)
    ensures
        leading(s, class) <= s.len(),
        all_in(s.take(leading(s, class) as int), class),
        leading(s, class) < s.len() ==> !class(s[leading(s, class) as int]),
    decreases s.len(),
{
    if s.len() > 0 && class(s.first()) {
        let rest = s.drop_first();
        lemma_leading_bounds(rest, class);
        let n = leading(rest, class) as int;
        assert forall|i: int| 0 <= i < n + 1 implies class(#[trigger] s.take(n + 1)[i]) by {
            if i > 0 {
                assert(s.take(n + 1)[i] == rest.take(n)[i - 1]);
            }
        }
        if n < rest.len() {
            assert(rest[n] == s[n + 1]);
        }
    }
}

/// The suffix that `trailing` measures lies within `s`, holds only
/// characters of `class`, and starts where `s` starts or after another
/// character.
pub proof fn lemma_trailing_bounds(s: Seq<char>, class: spec_fn(char) -> bool)
    ensures
        trailing(s, class) <= s.len(),
        all_in(s.skip(s.len() - trailing(s, class)), class),
        trailing(s, class) < s.len() ==> !class(s[s.len() - trailing(s, class) - 1]),
    decreases s.len(),
{
    if s.len() > 0 && class(s.last()) {
        let rest = s.drop_last();
        lemma_trailing_bounds(rest, class);
        let n = trailing(rest, class) as int;
        let b = rest.len() - n;
        assert forall|i: int| 0 <= i < n + 1 implies class(#[trigger] s.skip(b)[i]) by {
            if i < n {
                assert(s.skip(b)[i] == rest.skip(b)[i]);
            }
        }
        if n < rest.len() {
            assert(rest[b - 1] == s[b - 1]);
        }
    }
}

/// `leading` is `a` when everything before `a` belongs to `class` and `a` is
/// the end of `s` or the place of another character.
pub proof fn lemma_leading_is(s: Seq<char>, class: spec_fn(char) -> bool, a: int)
    requires
        0 <= a <= s.len(),
        forall|i: int| 0 <= i < a ==> class(#[trigger] s[i]),
        a < s.len() ==> !class(s[a]),
    ensures
        leading(s, class) == a,
    decreases a,
{
    if a > 0 {
        let rest = s.drop_first();
        assert forall|i: int| 0 <= i < a - 1 implies class(#[trigger] rest[i]) by {
            assert(rest[i] == s[i + 1]);
        }
        if a < s.len() {
            assert(rest[a - 1] == s[a]);
        }
        lemma_leading_is(rest, class, a - 1);
    }
}

/// `trailing` is `s.len() - b` when everything from `b` on belongs to
/// `class` and `b` is the start of `s` or follows another character.
pub proof fn lemma_trailing_is(s: Seq<char>, class: spec_fn(char) -> bool, b: int)
    requires
        0 <= b <= s.len(),
        forall|i: int| b <= i < s.len() ==> class(#[trigger] s[i]),
        b > 0 ==> !class(s[b - 1]),
    ensures
        trailing(s, class) == s.len() - b,
    decreases s.len() - b,
{
    if b < s.len() {
        let rest = s.drop_last();
        assert forall|i: int| b <= i < rest.len() implies class(#[trigger] rest[i]) by {
            assert(rest[i] == s[i]);
        }
        if b > 0 {
            assert(rest[b - 1] == s[b - 1]);
        }
        lemma_trailing_is(rest, class, b);
    }
}

/// The characters of `s`, one by one.
pub fn chars_of(s: &str) -> (chars: Vec<char>)
    ensures
        chars@ == s@,
{
    let mut chars: Vec<char> = Vec::new();
    for c in it: s.chars()
        invariant
            it.seq() == s@,
            chars@ == s@.take(it.index()),
    {
        assert(s@.take(it.index() + 1) == s@.take(it.index()).push(c));
        chars.push(c);
    }
    assert(s@.take(s@.len() as int) == s@);
    chars
}

/// The class of white-space characters.
pub open spec fn white_space() -> spec_fn(char) -> bool {
    |c: char| is_white_space(c)
}

/// `s` without its leading and trailing white space.
pub open spec fn trimmed(s: Seq<char>) -> Seq<char> {
    let start = leading(s, white_space());
    if start == s.len() {
        Seq::empty()
    } else {
        s.subrange(start as int, s.len() - trailing(s, white_space()))
    }
}

/// What trimming does, in full: the result is the stretch of `s` between its
/// leading and its trailing white space. It is empty exactly when `s` is
/// white space throughout, and otherwise it begins and ends with a character
/// that is no white space.
pub proof fn lemma_trimmed(s: Seq<char>)
    ensures
        trimmed(s).len() == 0 <==> all_in(s, white_space()),
        trimmed(s).len() > 0 ==> {
            let before = s.take(leading(s, white_space()) as int);
            let after = s.skip(s.len() - trailing(s, white_space()));
            &&& s == before + trimmed(s) + after
            &&& all_in(before, white_space())
            &&& all_in(after, white_space())
            &&& !is_white_space(trimmed(s).first())
            &&& !is_white_space(trimmed(s).last())
        },
{
    lemma_leading_bounds(s, white_space());
    lemma_trailing_bounds(s, white_space());
    let a = leading(s, white_space()) as int;
    let b = s.len() - trailing(s, white_space());
    if a == s.len() {
        assert forall|i: int| 0 <= i < s.len() implies white_space()(#[trigger] s[i]) by {
            assert(s.take(a)[i] == s[i]);
        }
    } else {
        assert(!white_space()(s[a]));
        if b <= a {
            assert(s.skip(b)[a - b] == s[a]);
        }
        assert(trimmed(s).first() == s[a]);
        assert(trimmed(s).last() == s[b - 1]);
        assert(s =~= s.take(a) + trimmed(s) + s.skip(b));
    }
}

/// `s` without the white space around it.
pub fn trim(s: &str) -> (t: &str)
    ensures
        t@ == trimmed(s@),
{
    let len = s.unicode_len();
    let mut start: usize = 0;
    let mut end: usize = 0;
    let mut position: usize = 0;
    for c in it: s.chars()
        invariant
            it.seq() == s@,
            len == s@.len(),
            position == it.index(),
            start <= end <= position,
            end == 0 ==> start == 0,
            forall|i: int|
                0 <= i < (if end == 0 {
                    position
                } else {
                    start
                }) ==> is_white_space(#[trigger] s@[i]),
            forall|i: int| end <= i < position ==> is_white_space(#[trigger] s@[i]),
            end > 0 ==> start < end && !is_white_space(s@[start as int]) && !is_white_space(
                s@[end - 1],
            ),
    {
        if !is_whitespace(c) {
            if end == 0 {
                start = position;
            }
            end = position + 1;
        }
        position = position + 1;
    }
    proof {
        if end == 0 {
            lemma_leading_is(s@, white_space(), len as int);
        } else {
            lemma_leading_is(s@, white_space(), start as int);
            lemma_trailing_is(s@, white_space(), end as int);
        }
    }
    s.substring_char(start, end)
}

} // verus!
