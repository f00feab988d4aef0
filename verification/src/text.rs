//! Trimming blank characters from both ends of a text.

use vstd::prelude::*;

verus! {

/// The blank characters that trimming removes from either end: the Unicode
/// white-space characters (character tabulation through carriage return,
/// space, next line, no-break space, ogham space mark, the en-quad through
/// hair-space range, the line and paragraph separators, the narrow no-break,
/// medium mathematical and ideographic spaces).
pub open spec fn is_blank(c: char) -> bool {
    let n = c as u32;
    (0x09 <= n && n <= 0x0D) || n == 0x20 || n == 0x85 || n == 0xA0 || n == 0x1680 || (0x2000
        <= n && n <= 0x200A) || n == 0x2028 || n == 0x2029 || n == 0x202F || n == 0x205F || n
        == 0x3000
}

/// The text with every leading and trailing blank character removed.
pub open spec fn trimmed(s: Seq<char>) -> Seq<char>
    decreases s.len(),
{
    if s.len() == 0 {
        s
    } else if is_blank(s[0]) {
        trimmed(s.skip(1))
    } else if is_blank(s[s.len() - 1]) {
        trimmed(s.take(s.len() - 1))
    } else {
        s
    }
}

/// Exec counterpart of `is_blank`.
pub fn is_blank_char(c: char) -> (result: bool)
    ensures
        result == is_blank(c),
{
    let n = c as u32;
    (0x09 <= n && n <= 0x0D) || n == 0x20 || n == 0x85 || n == 0xA0 || n == 0x1680 || (0x2000
        <= n && n <= 0x200A) || n == 0x2028 || n == 0x2029 || n == 0x202F || n == 0x205F || n
        == 0x3000
}

/// The trimmed text is the subrange that starts at the first non-blank
/// character and ends after the last one.
proof fn lemma_trimmed_subrange(s: Seq<char>, i: int, j: int)
    requires
        0 <= i <= j <= s.len(),
        forall|k: int| 0 <= k < i ==> is_blank(s[k]),
        forall|k: int| j <= k < s.len() ==> is_blank(s[k]),
        i < j ==> !is_blank(s[i]) && !is_blank(s[j - 1]),
    ensures
        trimmed(s) == s.subrange(i, j),
    decreases s.len(),
{
    if s.len() == 0 {
        assert(trimmed(s) =~= s.subrange(i, j));
    } else if is_blank(s[0]) {
        if i == 0 {
            assert(j == 0);
            lemma_trimmed_subrange(s.skip(1), 0, 0);
            assert(s.skip(1).subrange(0, 0) =~= s.subrange(0, 0));
        } else {
            lemma_trimmed_subrange(s.skip(1), i - 1, j - 1);
            assert(s.skip(1).subrange(i - 1, j - 1) =~= s.subrange(i, j));
        }
    } else if is_blank(s[s.len() - 1]) {
        assert(j < s.len());
        lemma_trimmed_subrange(s.take(s.len() - 1), i, j);
        assert(s.take(s.len() - 1).subrange(i, j) =~= s.subrange(i, j));
    } else {
        assert(i == 0);
        assert(j == s.len());
        assert(s.subrange(0, s.len() as int) =~= s);
    }
}

/// Returns the text with all leading and trailing blank characters removed.
pub fn trim_text(s: &str) -> (result: String)
    ensures
        result@ == trimmed(s@),
{
    let length = s.unicode_len();
    let mut start: usize = 0;
    while start < length && is_blank_char(s.get_char(start))
        invariant
            start <= length,
            length == s@.len(),
            forall|k: int| 0 <= k < start ==> is_blank(s@[k]),
        decreases length - start,
    {
        start = start + 1;
    }
    let mut end: usize = length;
    while end > start && is_blank_char(s.get_char(end - 1))
        invariant
            start <= end <= length,
            length == s@.len(),
            forall|k: int| end <= k < length ==> is_blank(s@[k]),
        decreases end,
    {
        end = end - 1;
    }
    let result = s.substring_char(start, end).to_owned();
    proof {
        lemma_trimmed_subrange(s@, start as int, end as int);
    }
    result
}

} // verus!
