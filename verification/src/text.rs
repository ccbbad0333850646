//! Character-level helpers shared by the parsers of this crate.
//!
//! Text is handled as a sequence of characters.  The scanning functions work
//! on a `Vec<char>` and are specified by [`scan_while`], the position reached
//! by stepping over characters for as long as a predicate holds.

use vstd::prelude::*;
use vstd::std_specs::iter::IteratorSpec;

verus! {

/// Whether `c` is one of the ASCII whitespace characters that separate fields.
pub open spec fn is_blank(c: char) -> bool {
    c == ' ' || c == '\t' || c == '\n' || c == '\x0C' || c == '\r'
}

/// The first position at or after `i` whose character does not satisfy
/// `keep`, or the end of `s` if there is none.
pub open spec fn scan_while(s: Seq<char>, i: int, keep: spec_fn(char) -> bool) -> int
    decreases s.len() - i,
{
    if 0 <= i < s.len() && keep(s[i]) {
        scan_while(s, i + 1, keep)
    } else {
        i
    }
}

/// The first position at or after `i` that holds no blank.
pub open spec fn skip_blanks(s: Seq<char>, i: int) -> int {
    scan_while(s, i, |c: char| is_blank(c))
}

/// The first position at or after `i` that holds a blank.
pub open spec fn skip_word(s: Seq<char>, i: int) -> int {
    scan_while(s, i, |c: char| !is_blank(c))
}

/// The first position at or after `i` that holds `c`.
pub open spec fn find_char(s: Seq<char>, i: int, c: char) -> int {
    scan_while(s, i, |d: char| d != c)
}

/// The position of the last `c` in `s`, or -1 if `s` holds none.
pub open spec fn last_index_of(s: Seq<char>, c: char) -> int
    decreases s.len(),
{
    if s.len() == 0 {
        -1
    } else if s.last() == c {
        s.len() - 1
    } else {
        last_index_of(s.drop_last(), c)
    }
}

/// Where the line ends that begins at `i` and has its newline at `end`:
/// before the newline, and before the carriage return where one precedes it.
pub open spec fn line_end(s: Seq<char>, i: int, end: int) -> int {
    if i < end && s[end - 1] == '\r' {
        end - 1
    } else {
        end
    }
}

/// The lines of `s` from position `i` on: the pieces between newline
/// characters, without them and without a carriage return before them.  A
/// newline at the very end opens no further line.
pub open spec fn lines_from(s: Seq<char>, i: int) -> Seq<Seq<char>>
    decreases s.len() - i,
{
    if 0 <= i < s.len() {
        let end = find_char(s, i, '\n');
        if i <= end < s.len() {
            seq![s.subrange(i, line_end(s, i, end))] + lines_from(s, end + 1)
        } else {
            seq![s.subrange(i, s.len() as int)]
        }
    } else {
        Seq::empty()
    }
}

/// The lines of `s`.
pub open spec fn lines_of(s: Seq<char>) -> Seq<Seq<char>> {
    lines_from(s, 0)
}

/// The first field of a line, where it has one: its first run of characters
/// that are not blank.
pub open spec fn first_field(line: Seq<char>) -> Option<Seq<char>> {
    let a = skip_blanks(line, 0);
    let b = skip_word(line, a);
    if a < b {
        Some(line.subrange(a, b))
    } else {
        None
    }
}

/// The first two fields of a line, where it has two.
pub open spec fn line_fields(line: Seq<char>) -> Option<(Seq<char>, Seq<char>)> {
    let a = skip_blanks(line, 0);
    let b = skip_word(line, a);
    let c = skip_blanks(line, b);
    let d = skip_word(line, c);
    if c < d {
        Some((line.subrange(a, b), line.subrange(c, d)))
    } else {
        None
    }
}

/// The character that stands for the digit `d`.
pub open spec fn digit(d: nat) -> char {
    if d == 0 {
        '0'
    } else if d == 1 {
        '1'
    } else if d == 2 {
        '2'
    } else if d == 3 {
        '3'
    } else if d == 4 {
        '4'
    } else if d == 5 {
        '5'
    } else if d == 6 {
        '6'
    } else if d == 7 {
        '7'
    } else if d == 8 {
        '8'
    } else {
        '9'
    }
}

/// The number `n` written in decimal digits, without leading zeros.
pub open spec fn decimal(n: nat) -> Seq<char>
    decreases n,
{
    if n < 10 {
        seq![digit(n)]
    } else {
        decimal(n / 10).push(digit(n % 10))
    }
}

/// Appends one character to a string.
///
/// Trusted: `String::push` of the standard library, which appends the given
/// character to the end of the string and changes nothing else.
#[verifier::external_body]
pub(crate) fn push_char(s: &mut String, c: char)
    ensures
        final(s)@ == old(s)@.push(c),
{
    s.push(c)
}

/// Executable test for [`is_blank`].
pub fn is_blank_char(c: char) -> (b: bool)
    ensures
        b == is_blank(c),
{
    c == ' ' || c == '\t' || c == '\n' || c == '\x0C' || c == '\r'
}

/// Executable form of [`digit`].
pub(crate) fn digit_char(d: usize) -> (c: char)
    requires
        d < 10,
    ensures
        c == digit(d as nat),
{
    if d == 0 {
        '0'
    } else if d == 1 {
        '1'
    } else if d == 2 {
        '2'
    } else if d == 3 {
        '3'
    } else if d == 4 {
        '4'
    } else if d == 5 {
        '5'
    } else if d == 6 {
        '6'
    } else if d == 7 {
        '7'
    } else if d == 8 {
        '8'
    } else {
        '9'
    }
}

/// Appends the decimal digits of `n` to `s`.
pub fn push_decimal(s: &mut String, n: usize)
    ensures
        final(s)@ == old(s)@ + decimal(n as nat),
    decreases n,
{
    if n >= 10 {
        push_decimal(s, n / 10);
    }
    push_char(s, digit_char(n % 10));
}

/// The characters of `s`, in order.
pub fn chars_of(s: &str) -> (v: Vec<char>)
    ensures
        v@ == s@,
{
    let mut v: Vec<char> = Vec::new();
    for c in it: s.chars()
        invariant
            v@ == it.seq().take(it.index()),
            it.seq() == s@,
    {
        v.push(c);
    }
    v
}

/// The string made of the characters `v[from..to]`.
pub(crate) fn string_of(v: &Vec<char>, from: usize, to: usize) -> (s: String)
    requires
        from <= to <= v.len(),
    ensures
        s@ == v@.subrange(from as int, to as int),
{
    let mut s = String::new();
    let mut i: usize = from;
    while i < to
        invariant
            from <= i <= to <= v.len(),
            s@ == v@.subrange(from as int, i as int),
        decreases to - i,
    {
        push_char(&mut s, v[i]);
        i += 1;
    }
    s
}

/// Steps over blanks from `from` on.
pub(crate) fn skip_blanks_in(v: &Vec<char>, from: usize) -> (i: usize)
    requires
        from <= v.len(),
    ensures
        i == skip_blanks(v@, from as int),
        from <= i <= v.len(),
{
    let mut i: usize = from;
    while i < v.len() && is_blank_char(v[i])
        invariant
            from <= i <= v.len(),
            skip_blanks(v@, from as int) == skip_blanks(v@, i as int),
        decreases v.len() - i,
    {
        i += 1;
    }
    i
}

/// Steps over a run of characters that are not blank, from `from` on.
pub(crate) fn skip_word_in(v: &Vec<char>, from: usize) -> (i: usize)
    requires
        from <= v.len(),
    ensures
        i == skip_word(v@, from as int),
        from <= i <= v.len(),
{
    let mut i: usize = from;
    while i < v.len() && !is_blank_char(v[i])
        invariant
            from <= i <= v.len(),
            skip_word(v@, from as int) == skip_word(v@, i as int),
        decreases v.len() - i,
    {
        i += 1;
    }
    i
}

/// Finds the first `c` at or after `from`; the length if there is none.
pub(crate) fn find_char_in(v: &Vec<char>, from: usize, c: char) -> (i: usize)
    requires
        from <= v.len(),
    ensures
        i == find_char(v@, from as int, c),
        from <= i <= v.len(),
{
    let mut i: usize = from;
    while i < v.len() && v[i] != c
        invariant
            from <= i <= v.len(),
            find_char(v@, from as int, c) == find_char(v@, i as int, c),
        decreases v.len() - i,
    {
        i += 1;
    }
    i
}

/// Finds the last `c` in `v[from..to]`: its position within that range, or
/// `None` if the range holds no `c`.
pub(crate) fn last_index_in(v: &Vec<char>, from: usize, to: usize, c: char) -> (r: Option<
    usize,
>)
    requires
        from <= to <= v.len(),
    ensures
        match r {
            Some(k) => k < to - from && k == last_index_of(
                v@.subrange(from as int, to as int),
                c,
            ),
            None => last_index_of(v@.subrange(from as int, to as int), c) == -1,
        },
{
    let ghost piece = v@.subrange(from as int, to as int);
    let mut j: usize = to;
    assert(piece.take(to - from) == piece);
    while j > from
        invariant
            from <= j <= to <= v.len(),
            piece == v@.subrange(from as int, to as int),
            last_index_of(piece, c) == last_index_of(piece.take(j - from), c),
        decreases j,
    {
        if v[j - 1] == c {
            return Some(j - 1 - from);
        }
        assert(piece.take(j - from).drop_last() == piece.take(j - 1 - from));
        j -= 1;
    }
    None
}

/// Finds the first two fields of a line: where the first begins and ends, and
/// where the second begins and ends.
pub fn locate_fields(line: &Vec<char>) -> (r: Option<(usize, usize, usize, usize)>)
    ensures
        r is Some <==> line_fields(line@) is Some,
        r matches Some((a, b, c, d)) ==> {
            &&& a <= b <= c < d <= line.len()
            &&& line_fields(line@) == Some(
                (line@.subrange(a as int, b as int), line@.subrange(c as int, d as int)),
            )
        },
{
    let a = skip_blanks_in(line, 0);
    let b = skip_word_in(line, a);
    let c = skip_blanks_in(line, b);
    let d = skip_word_in(line, c);
    if c < d {
        Some((a, b, c, d))
    } else {
        None
    }
}

/// Finds the first field of a line: where it begins and ends.
pub fn locate_first_field(line: &Vec<char>) -> (r: Option<(usize, usize)>)
    ensures
        r is Some <==> first_field(line@) is Some,
        r matches Some((a, b)) ==> {
            &&& a < b <= line.len()
            &&& first_field(line@) == Some(line@.subrange(a as int, b as int))
        },
{
    let a = skip_blanks_in(line, 0);
    let b = skip_word_in(line, a);
    if a < b {
        Some((a, b))
    } else {
        None
    }
}

/// Whether `v` begins with `prefix`.
pub fn starts_with(v: &Vec<char>, prefix: &Vec<char>) -> (b: bool)
    ensures
        b == prefix@.is_prefix_of(v@),
{
    if prefix.len() > v.len() {
        return false;
    }
    let mut i: usize = 0;
    while i < prefix.len()
        invariant
            i <= prefix.len() <= v.len(),
            forall|j: int| 0 <= j < i ==> prefix@[j] == v@[j],
        decreases prefix.len() - i,
    {
        if prefix[i] != v[i] {
            return false;
        }
        i += 1;
    }
    assert(prefix@ =~= v@.subrange(0, prefix@.len() as int));
    true
}

/// Whether `list` holds a string equal to `item`.
pub fn contains_string(list: &Vec<String>, item: &String) -> (b: bool)
    ensures
        b == list.deep_view().contains(item@),
{
    let mut i: usize = 0;
    while i < list.len()
        invariant
            i <= list.len(),
            forall|j: int| 0 <= j < i ==> list.deep_view()[j] != item@,
        decreases list.len() - i,
    {
        if list[i] == *item {
            assert(list.deep_view()[i as int] == item@);
            return true;
        }
        i += 1;
    }
    false
}

/// Splits `v` into its lines.
pub fn split_lines(v: &Vec<char>) -> (lines: Vec<Vec<char>>)
    ensures
        lines.deep_view() == lines_of(v@),
{
    let mut lines: Vec<Vec<char>> = Vec::new();
    let mut i: usize = 0;
    while i < v.len()
        invariant
            i <= v.len(),
            lines_of(v@) == lines.deep_view() + lines_from(v@, i as int),
        decreases v.len() - i,
    {
        let end = find_char_in(v, i, '\n');
        let stop = if end < v.len() && i < end && v[end - 1] == '\r' {
            end - 1
        } else {
            end
        };
        let ghost before = lines.deep_view();
        let mut line: Vec<char> = Vec::new();
        let mut j: usize = i;
        while j < stop
            invariant
                i <= j <= stop <= v.len(),
                line@ == v@.subrange(i as int, j as int),
            decreases stop - j,
        {
            line.push(v[j]);
            j += 1;
        }
        assert(line.deep_view() == v@.subrange(i as int, stop as int));
        lines.push(line);
        assert(lines.deep_view() == before + seq![v@.subrange(i as int, stop as int)]);
        i = if end < v.len() { end + 1 } else { end };
    }
    lines
}

} // verus!
