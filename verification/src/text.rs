//! Small operations on texts.

use vstd::prelude::*;

verus! {

/// Whether `text` holds `pattern` from position `at` on.
pub open spec fn occurs_at(text: Seq<char>, pattern: Seq<char>, at: int) -> bool {
    &&& 0 <= at
    &&& at + pattern.len() <= text.len()
    &&& text.subrange(at, at + pattern.len()) == pattern
}

/// Whether `pattern` occurs somewhere in `text`.
pub open spec fn occurs_in(text: Seq<char>, pattern: Seq<char>) -> bool {
    exists|at: int| occurs_at(text, pattern, at)
}

/// The characters of a text.
pub fn chars_of(text: &str) -> (chars: Vec<char>)
    ensures
        chars@ == text@,
{
    let mut chars: Vec<char> = Vec::new();
    for c in it: text.chars()
        invariant
            it.seq() == text@,
            chars@ == it.seq().take(it.index()),
    {
        chars.push(c);
        assert(chars@ =~= it.seq().take(it.index() + 1));
    }
    assert(chars@ =~= text@);
    chars
}

/// Whether `pattern` occurs somewhere in `text`.
pub fn contains(text: &str, pattern: &str) -> (found: bool)
    ensures
        found == occurs_in(text@, pattern@),
{
    let hay = chars_of(text);
    let needle = chars_of(pattern);
    let n: usize = hay.len();
    let m: usize = needle.len();
    if m > n {
        assert(forall|at: int| !occurs_at(text@, pattern@, at));
        return false;
    }
    let last: usize = n - m;
    let mut at: usize = 0;
    while at <= last
        invariant
            hay@ == text@,
            needle@ == pattern@,
            n == hay.len(),
            m == needle.len(),
            m <= n,
            last == n - m,
            at <= last + 1,
            forall|k: int| 0 <= k < at ==> !occurs_at(text@, pattern@, k),
        decreases last + 1 - at,
    {
        let mut j: usize = 0;
        while j < m && hay[at + j] == needle[j]
            invariant
                hay@ == text@,
                needle@ == pattern@,
                n == hay.len(),
                m == needle.len(),
                at + m <= n,
                j <= m,
                forall|k: int| 0 <= k < j ==> hay@[at + k] == needle@[k],
            decreases m - j,
        {
            j = j + 1;
        }
        if j == m {
            assert(text@.subrange(at as int, at + m) =~= pattern@);
            assert(occurs_at(text@, pattern@, at as int));
            return true;
        }
        assert(!occurs_at(text@, pattern@, at as int)) by {
            if occurs_at(text@, pattern@, at as int) {
                assert(text@.subrange(at as int, at + m)[j as int] == pattern@[j as int]);
            }
        }
        at = at + 1;
    }
    assert(forall|k: int| !occurs_at(text@, pattern@, k));
    false
}

/// `String::push` appends the given character to the end of the string.
pub assume_specification[ String::push ](s: &mut String, ch: char)
    ensures
        final(s)@ == old(s)@.push(ch),
;

/// `text` with every `from` replaced by `to`.
pub open spec fn replaced(text: Seq<char>, from: char, to: char) -> Seq<char> {
    Seq::new(
        text.len(),
        |i: int|
            if text[i] == from {
                to
            } else {
                text[i]
            },
    )
}

/// `text` with every `from` replaced by `to`.
pub fn replace_char(text: &str, from: char, to: char) -> (out: String)
    ensures
        out@ == replaced(text@, from, to),
{
    let chars = chars_of(text);
    let mut out = String::new();
    let count: usize = chars.len();
    let mut i: usize = 0;
    while i < count
        invariant
            chars@ == text@,
            count == chars.len(),
            i <= count,
            out@ == replaced(text@, from, to).take(i as int),
        decreases count - i,
    {
        let c: char = chars[i];
        out.push(if c == from {
            to
        } else {
            c
        });
        i = i + 1;
        assert(out@ =~= replaced(text@, from, to).take(i as int));
    }
    assert(replaced(text@, from, to).take(count as int) =~= replaced(text@, from, to));
    out
}

} // verus!
