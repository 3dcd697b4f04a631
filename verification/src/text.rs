//! Text as sequences of characters: conversions between `String` and
//! `Vec<char>`, and the small scanning functions the rest of the crate uses.

use vstd::prelude::*;
use vstd::string::*;

verus! {

/// The characters of `s`, in order.
pub fn chars_of(s: &str) -> (out: Vec<char>)
    ensures
        out@ == s@,
{
    let mut out: Vec<char> = Vec::new();
    for c in it: s.chars()
        invariant
            out@ == it.seq().take(it.index() as int),
            it.seq() == s@,
    {
        out.push(c);
    }
    out
}

/// Whether `c` has the Unicode property White_Space: the controls from tab
/// to carriage return, the space, next line, the no-break space, the ogham
/// space mark, the spaces from en quad to hair space, the line and the
/// paragraph separator, the narrow no-break space, the medium mathematical
/// space and the ideographic space.
pub open spec fn is_whitespace(c: char) -> bool {
    let n = c as u32;
    (0x09 <= n <= 0x0d) || n == 0x20 || n == 0x85 || n == 0xa0 || n == 0x1680 || (0x2000 <= n
        <= 0x200a) || n == 0x2028 || n == 0x2029 || n == 0x202f || n == 0x205f || n == 0x3000
}

/// `char::is_whitespace` of std: whether the character has the Unicode
/// property White_Space, whose code points [`is_whitespace`] lists.
#[verifier::external_body]
pub(crate) fn char_is_whitespace(c: char) -> (b: bool)
    ensures
        b == is_whitespace(c),
{
    c.is_whitespace()
}

/// A set of characters that a scan looks for.
#[derive(Clone, Copy, Debug)]
pub enum CharClass {
    /// The one character given.
    Is(char),
    /// Any character with the property White_Space.
    Whitespace,
    /// Any character without it.
    NotWhitespace,
}

impl CharClass {
    /// Whether `c` belongs to the class.
    pub open spec fn holds(self, c: char) -> bool {
        match self {
            CharClass::Is(d) => c == d,
            CharClass::Whitespace => is_whitespace(c),
            CharClass::NotWhitespace => !is_whitespace(c),
        }
    }

    /// Tests whether `c` belongs to the class.
    pub fn test(&self, c: char) -> (b: bool)
        ensures
            b == self.holds(c),
    {
        match self {
            CharClass::Is(d) => c == *d,
            CharClass::Whitespace => char_is_whitespace(c),
            CharClass::NotWhitespace => !char_is_whitespace(c),
        }
    }
}

/// The least index at or after `from` whose character is in `class`;
/// `s.len()` where there is none.
pub open spec fn scan_forward(s: Seq<char>, class: CharClass, from: int) -> int
    decreases s.len() - from,
{
    if from < 0 || from >= s.len() {
        s.len() as int
    } else if class.holds(s[from]) {
        from
    } else {
        scan_forward(s, class, from + 1)
    }
}

/// The greatest index `i` at or before `to` such that the character just
/// before `i` is in `class`; 0 where there is none.
pub open spec fn scan_backward(s: Seq<char>, class: CharClass, to: int) -> int
    decreases to,
{
    if to <= 0 || to > s.len() {
        0
    } else if class.holds(s[to - 1]) {
        to
    } else {
        scan_backward(s, class, to - 1)
    }
}

/// What [`scan_forward`] finds: nothing of the class lies between `from` and
/// the result, and the result is either the end or a character of the class.
pub proof fn lemma_scan_forward(s: Seq<char>, class: CharClass, from: int)
    requires
        0 <= from <= s.len(),
    ensures
        from <= scan_forward(s, class, from) <= s.len(),
        forall|j: int| from <= j < scan_forward(s, class, from) ==> !class.holds(#[trigger] s[j]),
        scan_forward(s, class, from) < s.len() ==> class.holds(s[scan_forward(s, class, from)]),
    decreases s.len() - from,
{
    if from < s.len() && !class.holds(s[from]) {
        lemma_scan_forward(s, class, from + 1);
    }
}

/// What [`scan_backward`] finds: nothing of the class lies between the result
/// and `to`, and the result is either 0 or just behind a character of the class.
pub proof fn lemma_scan_backward(s: Seq<char>, class: CharClass, to: int)
    requires
        0 <= to <= s.len(),
    ensures
        0 <= scan_backward(s, class, to) <= to,
        forall|j: int| scan_backward(s, class, to) <= j < to ==> !class.holds(#[trigger] s[j]),
        scan_backward(s, class, to) > 0 ==> class.holds(s[scan_backward(s, class, to) - 1]),
    decreases to,
{
    if to > 0 && !class.holds(s[to - 1]) {
        lemma_scan_backward(s, class, to - 1);
    }
}

/// Scans forward from `from` for a character of `class`.
pub fn find_forward(s: &Vec<char>, class: CharClass, from: usize) -> (i: usize)
    ensures
        i == scan_forward(s@, class, from as int),
        i <= s.len(),
        from <= s.len() ==> from <= i,
{
    if from >= s.len() {
        return s.len();
    }
    let mut i: usize = from;
    while i < s.len() && !class.test(s[i])
        invariant
            from <= i <= s.len(),
            scan_forward(s@, class, from as int) == scan_forward(s@, class, i as int),
        decreases s.len() - i,
    {
        i = i + 1;
    }
    i
}

/// Scans backward from `to` for a character of `class`.
pub fn find_backward(s: &Vec<char>, class: CharClass, to: usize) -> (i: usize)
    ensures
        i == scan_backward(s@, class, to as int),
        i <= to,
{
    if to > s.len() {
        return 0;
    }
    let mut i: usize = to;
    while i > 0 && !class.test(s[i - 1])
        invariant
            i <= to <= s.len(),
            scan_backward(s@, class, to as int) == scan_backward(s@, class, i as int),
        decreases i,
    {
        i = i - 1;
    }
    i
}

/// The characters of `s` from `from` up to `to`; clipped to the bounds of
/// `s`, and empty where `from` is not below `to`.
pub open spec fn clip(s: Seq<char>, from: int, to: int) -> Seq<char> {
    let hi = if to > s.len() { s.len() as int } else { to };
    if 0 <= from < hi {
        s.subrange(from, hi)
    } else {
        Seq::empty()
    }
}

/// Copies the characters of `s` from `from` up to `to`, clipped to the
/// bounds of `s`.
pub fn substring(s: &str, from: usize, to: usize) -> (out: String)
    ensures
        out@ == clip(s@, from as int, to as int),
{
    let len = s.unicode_len();
    let hi: usize = if to > len { len } else { to };
    if from < hi {
        String::from_str(s.substring_char(from, hi))
    } else {
        String::new()
    }
}

/// What follows the last `c` in `s`; all of `s` where `c` does not occur.
pub open spec fn after_last(s: Seq<char>, c: char) -> Seq<char> {
    clip(s, scan_backward(s, CharClass::Is(c), s.len() as int), s.len() as int)
}

/// What stands before the first `c` in `s`; all of `s` where `c` does not occur.
pub open spec fn before_first(s: Seq<char>, c: char) -> Seq<char> {
    clip(s, 0, scan_forward(s, CharClass::Is(c), 0))
}

/// `s` from its first `c` on; all of `s` where `c` does not occur.
pub open spec fn from_first(s: Seq<char>, c: char) -> Seq<char> {
    if scan_forward(s, CharClass::Is(c), 0) < s.len() {
        clip(s, scan_forward(s, CharClass::Is(c), 0), s.len() as int)
    } else {
        s
    }
}

/// `s` without the pairs of slashes it begins with.
pub open spec fn without_leading_slash_pairs(s: Seq<char>) -> Seq<char>
    decreases s.len(),
{
    if s.len() >= 2 && s[0] == '/' && s[1] == '/' {
        without_leading_slash_pairs(s.skip(2))
    } else {
        s
    }
}

/// `s` without the whitespace at its two ends.
pub open spec fn trimmed(s: Seq<char>) -> Seq<char> {
    clip(
        s,
        scan_forward(s, CharClass::NotWhitespace, 0),
        scan_backward(s, CharClass::NotWhitespace, s.len() as int),
    )
}

/// The last run of characters of `s` that holds no whitespace; `None` where
/// `s` is whitespace throughout.
pub open spec fn last_token(s: Seq<char>) -> Option<Seq<char>> {
    let end = scan_backward(s, CharClass::NotWhitespace, s.len() as int);
    if end == 0 {
        None
    } else {
        Some(clip(s, scan_backward(s, CharClass::Whitespace, end), end))
    }
}

/// The line of `s` between `from` and `to`, where `to` is the end of `s` or
/// the place of a line feed. A carriage return directly before that line
/// feed belongs to the line ending, not to the line.
pub open spec fn line_between(s: Seq<char>, from: int, to: int) -> Seq<char> {
    if from < to < s.len() && s[to - 1] == '\r' {
        clip(s, from, to - 1)
    } else {
        clip(s, from, to)
    }
}

/// The first line of `s`; `None` where `s` is empty.
pub open spec fn first_line(s: Seq<char>) -> Option<Seq<char>> {
    if s.len() == 0 {
        None
    } else {
        Some(line_between(s, 0, scan_forward(s, CharClass::Is('\n'), 0)))
    }
}

/// Where the last line of a non-empty `s` ends: before its final line feed,
/// if it ends in one.
pub open spec fn last_line_end(s: Seq<char>) -> int {
    if s.len() > 0 && s[s.len() - 1] == '\n' {
        s.len() - 1
    } else {
        s.len() as int
    }
}

/// The last line of `s`; `None` where `s` is empty. A final line feed ends
/// the last line and opens no further one.
pub open spec fn last_line(s: Seq<char>) -> Option<Seq<char>> {
    if s.len() == 0 {
        None
    } else {
        Some(
            line_between(
                s,
                scan_backward(s, CharClass::Is('\n'), last_line_end(s)),
                last_line_end(s),
            ),
        )
    }
}

/// Whether `s` begins with `c`.
pub open spec fn begins_with(s: Seq<char>, c: char) -> bool {
    s.len() > 0 && s[0] == c
}

/// What follows the last `c` in `s`.
pub fn last_segment(s: &str, c: char) -> (out: String)
    ensures
        out@ == after_last(s@, c),
{
    let v = chars_of(s);
    let start = find_backward(&v, CharClass::Is(c), v.len());
    substring(s, start, v.len())
}

/// What stands before the first `c` in `s`.
pub fn first_segment(s: &str, c: char) -> (out: String)
    ensures
        out@ == before_first(s@, c),
{
    let v = chars_of(s);
    let end = find_forward(&v, CharClass::Is(c), 0);
    substring(s, 0, end)
}

/// `s` from its first `c` on, or all of `s` where `c` does not occur.
pub fn suffix_from(s: &str, c: char) -> (out: String)
    ensures
        out@ == from_first(s@, c),
{
    let v = chars_of(s);
    let start = find_forward(&v, CharClass::Is(c), 0);
    if start < v.len() {
        substring(s, start, v.len())
    } else {
        String::from_str(s)
    }
}

/// Removes the pairs of slashes that `s` begins with.
pub fn strip_leading_slash_pairs(s: &str) -> (out: String)
    ensures
        out@ == without_leading_slash_pairs(s@),
{
    let v = chars_of(s);
    let mut i: usize = 0;
    assert(v@.skip(0) =~= v@);
    while v.len() - i >= 2 && v[i] == '/' && v[i + 1] == '/'
        invariant
            i <= v.len(),
            without_leading_slash_pairs(v@) == without_leading_slash_pairs(v@.skip(i as int)),
        decreases v.len() - i,
    {
        assert(v@.skip(i as int).skip(2) =~= v@.skip(i as int + 2));
        i = i + 2;
    }
    assert(v@.skip(i as int) =~= clip(v@, i as int, v.len() as int));
    substring(s, i, v.len())
}

/// Removes the whitespace at the two ends of `s`.
pub fn trim(s: &str) -> (out: String)
    ensures
        out@ == trimmed(s@),
{
    let v = chars_of(s);
    let from = find_forward(&v, CharClass::NotWhitespace, 0);
    let to = find_backward(&v, CharClass::NotWhitespace, v.len());
    substring(s, from, to)
}

/// The last whitespace-separated token of `s`.
pub fn final_token(s: &str) -> (out: Option<String>)
    ensures
        out is Some == last_token(s@) is Some,
        out is Some ==> out->0@ == last_token(s@)->0,
{
    let v = chars_of(s);
    let end = find_backward(&v, CharClass::NotWhitespace, v.len());
    if end == 0 {
        return None;
    }
    let start = find_backward(&v, CharClass::Whitespace, end);
    Some(substring(s, start, end))
}

/// Copies the line that lies between `from` and `to` in `s`.
fn line_of(s: &str, chars: &Vec<char>, from: usize, to: usize) -> (out: String)
    requires
        chars@ == s@,
    ensures
        out@ == line_between(s@, from as int, to as int),
{
    if from < to && to < chars.len() && chars[to - 1] == '\r' {
        substring(s, from, to - 1)
    } else {
        substring(s, from, to)
    }
}

/// The first line of `s`.
pub fn leading_line(s: &str) -> (out: Option<String>)
    ensures
        out is Some == first_line(s@) is Some,
        out is Some ==> out->0@ == first_line(s@)->0,
{
    let v = chars_of(s);
    if v.len() == 0 {
        return None;
    }
    let end = find_forward(&v, CharClass::Is('\n'), 0);
    Some(line_of(s, &v, 0, end))
}

/// The last line of `s`.
pub fn final_line(s: &str) -> (out: Option<String>)
    ensures
        out is Some == last_line(s@) is Some,
        out is Some ==> out->0@ == last_line(s@)->0,
{
    let v = chars_of(s);
    if v.len() == 0 {
        return None;
    }
    let end: usize = if v[v.len() - 1] == '\n' { v.len() - 1 } else { v.len() };
    let start = find_backward(&v, CharClass::Is('\n'), end);
    Some(line_of(s, &v, start, end))
}

/// Whether `s` begins with `c`.
pub fn starts_with_char(s: &str, c: char) -> (b: bool)
    ensures
        b == begins_with(s@, c),
{
    let mut it = s.chars();
    match it.next() {
        Some(d) => d == c,
        None => false,
    }
}

} // verus!
