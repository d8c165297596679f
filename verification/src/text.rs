//! Character-level helpers shared by the scanner, the tokenizer and the
//! renderer: decoding a string into characters, collecting characters back
//! into a string, and trimming Unicode white space.

use vstd::prelude::*;

verus! {

/// `String::push` appends one character to the end of the string.
pub assume_specification[ String::push ](s: &mut String, c: char)
    ensures
        final(s)@ == old(s)@.push(c),
;

/// Decodes a string into its characters.
pub fn str_chars(s: &str) -> (chars: Vec<char>)
    ensures
        chars@ == s@,
{
    let mut chars: Vec<char> = Vec::new();
    for c in it: s.chars()
        invariant
            chars@ == it.seq().take(it.index() as int),
    {
        chars.push(c);
    }
    chars
}

/// Collects the characters `chars[from..to]` into a string.
pub fn collect_chars(chars: &[char], from: usize, to: usize) -> (s: String)
    requires
        from <= to <= chars@.len(),
    ensures
        s@ == chars@.subrange(from as int, to as int),
{
    let mut s = String::new();
    let mut i: usize = from;
    while i < to
        invariant
            from <= i <= to <= chars@.len(),
            s@ == chars@.subrange(from as int, i as int),
        decreases to - i,
    {
        s.push(chars[i]);
        i += 1;
    }
    s
}

/// Whether `c` has the Unicode property `White_Space`.
pub open spec fn is_space(c: char) -> bool {
    let u = c as u32;
    ||| 0x09 <= u <= 0x0D
    ||| u == 0x20
    ||| u == 0x85
    ||| u == 0xA0
    ||| u == 0x1680
    ||| 0x2000 <= u <= 0x200A
    ||| u == 0x2028
    ||| u == 0x2029
    ||| u == 0x202F
    ||| u == 0x205F
    ||| u == 0x3000
}

/// Whether `c` is Unicode white space.
pub fn is_whitespace(c: char) -> (b: bool)
    ensures
        b == is_space(c),
{
    let u: u32 = c as u32;
    (0x09 <= u && u <= 0x0D) || u == 0x20 || u == 0x85 || u == 0xA0 || u == 0x1680 || (0x2000 <= u
        && u <= 0x200A) || u == 0x2028 || u == 0x2029 || u == 0x202F || u == 0x205F || u == 0x3000
}

/// The index of the first character at or after `from` that is not white
/// space, or the length of `s` if there is none.
pub open spec fn trim_start_index(s: Seq<char>, from: int) -> int
    decreases s.len() - from,
{
    if 0 <= from < s.len() && is_space(s[from]) {
        trim_start_index(s, from + 1)
    } else {
        from
    }
}

/// The end of the text that is left of `s[lo..hi]` once trailing white space
/// is dropped: the smallest `e >= lo` such that `s[e..hi]` is all white space.
pub open spec fn trim_end_index(s: Seq<char>, lo: int, hi: int) -> int
    decreases hi - lo,
{
    if lo < hi <= s.len() && is_space(s[hi - 1]) {
        trim_end_index(s, lo, hi - 1)
    } else {
        hi
    }
}

/// `s` without its leading and trailing white space.
pub open spec fn trimmed(s: Seq<char>) -> Seq<char> {
    let from = trim_start_index(s, 0);
    s.subrange(from, trim_end_index(s, from, s.len() as int))
}

/// Where trimming starts: everything from `from` up to the index is white
/// space, and what stands at the index, if anything does, is not.
pub proof fn lemma_trim_start_index(s: Seq<char>, from: int)
    requires
        0 <= from <= s.len(),
    ensures
        from <= trim_start_index(s, from) <= s.len(),
        forall|i: int| from <= i < trim_start_index(s, from) ==> is_space(s[i]),
        trim_start_index(s, from) < s.len() ==> !is_space(s[trim_start_index(s, from)]),
    decreases s.len() - from,
{
    if from < s.len() && is_space(s[from]) {
        lemma_trim_start_index(s, from + 1);
    }
}

/// Where trimming ends: everything from the index up to `hi` is white space,
/// and what stands before the index, if it lies above `lo`, is not.
pub proof fn lemma_trim_end_index(s: Seq<char>, lo: int, hi: int)
    requires
        0 <= lo <= hi <= s.len(),
    ensures
        lo <= trim_end_index(s, lo, hi) <= hi,
        forall|i: int| trim_end_index(s, lo, hi) <= i < hi ==> is_space(s[i]),
        lo < trim_end_index(s, lo, hi) ==> !is_space(s[trim_end_index(s, lo, hi) - 1]),
    decreases hi - lo,
{
    if lo < hi && is_space(s[hi - 1]) {
        lemma_trim_end_index(s, lo, hi - 1);
    }
}

/// A trimmed text neither starts nor ends with white space.
pub proof fn lemma_trimmed_has_no_margin(s: Seq<char>)
    ensures
        trimmed(s).len() > 0 ==> !is_space(trimmed(s).first()) && !is_space(trimmed(s).last()),
{
    let from = trim_start_index(s, 0);
    lemma_trim_start_index(s, 0);
    lemma_trim_end_index(s, from, s.len() as int);
}

/// Finds the bounds of `chars` without leading and trailing white space.
pub fn trim_bounds(chars: &[char]) -> (bounds: (usize, usize))
    ensures
        bounds.0 <= bounds.1 <= chars@.len(),
        bounds.0 == trim_start_index(chars@, 0),
        bounds.1 == trim_end_index(chars@, bounds.0 as int, chars@.len() as int),
        chars@.subrange(bounds.0 as int, bounds.1 as int) == trimmed(chars@),
{
    let len = chars.len();
    let mut from: usize = 0;
    while from < len && is_whitespace(chars[from])
        invariant
            from <= len == chars@.len(),
            trim_start_index(chars@, 0) == trim_start_index(chars@, from as int),
        decreases len - from,
    {
        from += 1;
    }
    let mut to: usize = len;
    while from < to && is_whitespace(chars[to - 1])
        invariant
            from <= to <= len == chars@.len(),
            trim_end_index(chars@, from as int, len as int) == trim_end_index(
                chars@,
                from as int,
                to as int,
            ),
        decreases to - from,
    {
        to -= 1;
    }
    (from, to)
}

} // verus!
