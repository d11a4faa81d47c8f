//! Reading a MIME type out of a `content-type` header value.

use vstd::prelude::*;
use vstd::std_specs::iter::IteratorSpec;

verus! {

broadcast use vstd::string::group_string_axioms;

/// Whether `c` has the Unicode property `White_Space`.
pub open spec fn is_white_space(c: char) -> bool {
    let n = c as u32;
    ||| 0x09 <= n <= 0x0D
    ||| n == 0x20
    ||| n == 0x85
    ||| n == 0xA0
    ||| n == 0x1680
    ||| 0x2000 <= n <= 0x200A
    ||| n == 0x2028
    ||| n == 0x2029
    ||| n == 0x202F
    ||| n == 0x205F
    ||| n == 0x3000
}

/// Number of white-space characters at the front of `s`.
pub open spec fn leading_white_space(s: Seq<char>) -> nat
    decreases s.len(),
{
    if s.len() > 0 && is_white_space(s[0]) {
        1 + leading_white_space(s.drop_first())
    } else {
        0
    }
}

/// Number of white-space characters at the back of `s`.
pub open spec fn trailing_white_space(s: Seq<char>) -> nat
    decreases s.len(),
{
    if s.len() > 0 && is_white_space(s.last()) {
        1 + trailing_white_space(s.drop_last())
    } else {
        0
    }
}

/// `s` without the white space at its front and at its back.
pub open spec fn trimmed(s: Seq<char>) -> Seq<char> {
    let rest = s.skip(leading_white_space(s) as int);
    rest.take(rest.len() - trailing_white_space(rest))
}

/// The part of `s` before its first `;`, or all of `s` if it holds none.
pub open spec fn first_field(s: Seq<char>) -> Seq<char> {
    match s.index_of_first(';') {
        Some(i) => s.take(i),
        None => s,
    }
}

/// The MIME type that a `content-type` header value names: what stands
/// before the first `;`, without the white space around it.
pub open spec fn mime_type_of(content_type: Seq<char>) -> Seq<char> {
    trimmed(first_field(content_type))
}

/// `a` is the number of leading white-space characters of `s` as soon as the
/// first `a` characters are white space and the next one, if any, is not.
pub proof fn lemma_leading_white_space(s: Seq<char>, a: int)
    requires
        0 <= a <= s.len(),
        forall|i: int| 0 <= i < a ==> is_white_space(#[trigger] s[i]),
        a < s.len() ==> !is_white_space(s[a]),
    ensures
        leading_white_space(s) == a,
    decreases a,
{
    if a > 0 {
        let t = s.drop_first();
        assert forall|i: int| 0 <= i < a - 1 implies is_white_space(#[trigger] t[i]) by {
            assert(t[i] == s[i + 1]);
        }
        lemma_leading_white_space(t, a - 1);
    }
}

/// `n` is the number of trailing white-space characters of `s` as soon as the
/// last `n` characters are white space and the one before them, if any, is
/// not.
pub proof fn lemma_trailing_white_space(s: Seq<char>, n: int)
    requires
        0 <= n <= s.len(),
        forall|i: int| s.len() - n <= i < s.len() ==> is_white_space(#[trigger] s[i]),
        n < s.len() ==> !is_white_space(s[s.len() - n - 1]),
    ensures
        trailing_white_space(s) == n,
    decreases n,
{
    if n > 0 {
        let t = s.drop_last();
        assert forall|i: int| t.len() - (n - 1) <= i < t.len() implies is_white_space(
            #[trigger] t[i],
        ) by {
            assert(t[i] == s[i]);
        }
        lemma_trailing_white_space(t, n - 1);
    }
}

/// `s.take(end)` is the first field of `s` as soon as no `;` stands before
/// `end` and one stands at `end`, unless `end` is the length of `s`.
pub proof fn lemma_first_field(s: Seq<char>, end: int)
    requires
        0 <= end <= s.len(),
        forall|i: int| 0 <= i < end ==> #[trigger] s[i] != ';',
        end < s.len() ==> s[end] == ';',
    ensures
        first_field(s) == s.take(end),
{
    s.index_of_first_ensures(';');
    match s.index_of_first(';') {
        Some(i) => {
            assert(i == end);
        },
        None => {
            if end < s.len() {
                assert(s.contains(s[end]));
            }
            assert(s.take(end) =~= s);
        },
    }
}

/// Tells whether `c` is white space, as `char::is_whitespace` does.
pub fn is_whitespace(c: char) -> (b: bool)
    ensures
        b == is_white_space(c),
{
    let n: u32 = c as u32;
    (0x09 <= n && n <= 0x0D) || n == 0x20 || n == 0x85 || n == 0xA0 || n == 0x1680 || (0x2000 <= n
        && n <= 0x200A) || n == 0x2028 || n == 0x2029 || n == 0x202F || n == 0x205F || n
        == 0x3000
}

/// Extracts the MIME type from a `content-type` header value: the text
/// before the first `;`, trimmed of white space.
pub fn extract_mime_type(content_type: &str) -> (mime: &str)
    ensures
        mime@ == mime_type_of(content_type@),
{
    let ghost s = content_type@;
    let len = content_type.unicode_len();
    let mut chars = content_type.chars();
    let mut i: usize = 0;
    // Where the trimmed field begins and ends, counted in characters.
    let mut start: usize = 0;
    let mut stop: usize = 0;
    let mut seen_text = false;
    let mut at_end = false;
    while !at_end
        invariant
            0 <= i <= s.len() == len,
            !at_end ==> chars.remaining() == s.skip(i as int),
            forall|j: int| 0 <= j < i ==> #[trigger] s[j] != ';',
            at_end ==> (i == s.len() || s[i as int] == ';'),
            start <= i,
            forall|j: int| 0 <= j < start ==> is_white_space(#[trigger] s[j]),
            seen_text ==> start < stop <= i && !is_white_space(s[start as int]) && !is_white_space(
                s[stop - 1],
            ),
            seen_text ==> forall|j: int| stop <= j < i ==> is_white_space(#[trigger] s[j]),
            !seen_text ==> start == i && stop == 0,
        decreases (if at_end { 0nat } else { 1nat }), s.len() - i,
    {
        match chars.next() {
            None => {
                at_end = true;
            },
            Some(c) => {
                assert(c == s.skip(i as int)[0]);
                assert(s.skip(i as int).drop_first() =~= s.skip(i + 1));
                if c == ';' {
                    at_end = true;
                } else {
                    i = i + 1;
                    if !is_whitespace(c) {
                        seen_text = true;
                        stop = i;
                    } else if !seen_text {
                        start = i;
                    }
                }
            },
        }
    }
    if !seen_text {
        stop = start;
    }
    proof {
        let field = s.take(i as int);
        lemma_first_field(s, i as int);
        lemma_leading_white_space(field, start as int);
        let rest = field.skip(start as int);
        lemma_trailing_white_space(rest, i - stop);
        assert(rest.take(rest.len() - (i - stop)) =~= s.subrange(start as int, stop as int));
    }
    content_type.substring_char(start, stop)
}

} // verus!
