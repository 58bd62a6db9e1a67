//! Small text predicates used by the state machine and the projections.
use vstd::prelude::*;

verus! {

/// The characters of Unicode's White_Space property.
pub open spec fn is_space(c: char) -> bool {
    ('\u{9}' <= c && c <= '\u{d}') || c == ' ' || c == '\u{85}' || c == '\u{a0}' || c == '\u{1680}'
        || ('\u{2000}' <= c && c <= '\u{200a}') || c == '\u{2028}' || c == '\u{2029}'
        || c == '\u{202f}' || c == '\u{205f}' || c == '\u{3000}'
}

/// A text that is empty once trimmed: every character is white space.
pub open spec fn is_blank_spec(s: Seq<char>) -> bool {
    forall|i: int| 0 <= i < s.len() ==> is_space(#[trigger] s[i])
}

pub open spec fn ends_with(s: Seq<char>, suffix: Seq<char>) -> bool {
    suffix.len() <= s.len() && s.subrange(s.len() - suffix.len(), s.len() as int) == suffix
}

fn is_space_char(c: char) -> (r: bool)
    ensures
        r == is_space(c),
{
    ('\u{9}' <= c && c <= '\u{d}') || c == ' ' || c == '\u{85}' || c == '\u{a0}' || c == '\u{1680}'
        || ('\u{2000}' <= c && c <= '\u{200a}') || c == '\u{2028}' || c == '\u{2029}'
        || c == '\u{202f}' || c == '\u{205f}' || c == '\u{3000}'
}

/// Whether the text holds nothing but white space.
pub fn is_blank(s: &str) -> (r: bool)
    ensures
        r == is_blank_spec(s@),
{
    let n = s.unicode_len();
    let mut i: usize = 0;
    while i < n
        invariant
            n == s@.len(),
            i <= n,
            forall|k: int| 0 <= k < i ==> is_space(#[trigger] s@[k]),
        decreases n - i,
    {
        if !is_space_char(s.get_char(i)) {
            return false;
        }
        i += 1;
    }
    true
}

/// Whether a chat line names a GIF image: it ends with `.gif`, exactly, in
/// lower case.
pub fn is_gif(message: &str) -> (r: bool)
    ensures
        r == ends_with(message@, ".gif"@),
{
    proof {
        reveal_strlit(".gif");
    }
    let n = message.unicode_len();
    if n < 4 {
        return false;
    }
    let r = message.get_char(n - 4) == '.' && message.get_char(n - 3) == 'g'
        && message.get_char(n - 2) == 'i' && message.get_char(n - 1) == 'f';
    proof {
        let tail = message@.subrange(n - 4, n as int);
        if r {
            assert(tail =~= ".gif"@);
        } else {
            assert(tail != ".gif"@) by {
                if tail == ".gif"@ {
                    assert(tail[0] == message@[n - 4]);
                    assert(tail[1] == message@[n - 3]);
                    assert(tail[2] == message@[n - 2]);
                    assert(tail[3] == message@[n - 1]);
                }
            }
        }
    }
    r
}

} // verus!
