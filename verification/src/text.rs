//! Character-level helpers on text.
//!
//! Text is modelled as `Seq<char>`, one element per Unicode scalar value.
//! The executable functions work on `Vec<char>` and on index ranges into it,
//! so that a caller can cut the pieces it needs out of the string itself.

use vstd::prelude::*;
use vstd::string::{StrSliceExecFns, StringExecFns};

verus! {

/// `p` occurs in `s` at position `i`.
pub open spec fn occurs_at(s: Seq<char>, p: Seq<char>, i: int) -> bool {
    0 <= i && i + p.len() <= s.len() && s.subrange(i, i + p.len()) == p
}

/// `p` occurs somewhere in `s`.
pub open spec fn contains_text(s: Seq<char>, p: Seq<char>) -> bool {
    exists|i: int| occurs_at(s, p, i)
}

/// `s` begins with `p`.
pub open spec fn starts_with(s: Seq<char>, p: Seq<char>) -> bool {
    occurs_at(s, p, 0)
}

/// `s` ends with `p`.
pub open spec fn ends_with(s: Seq<char>, p: Seq<char>) -> bool {
    occurs_at(s, p, s.len() - p.len())
}

/// The position of the first `c` in `s`, or `s.len()` if there is none.
pub open spec fn first_index_of(s: Seq<char>, c: char) -> int
    decreases s.len(),
{
    if s.len() == 0 {
        0
    } else if s[0] == c {
        0
    } else {
        1 + first_index_of(s.skip(1), c)
    }
}

/// The pieces of `s` between occurrences of `sep`. There is always at least
/// one piece; an empty text has the single piece that is empty.
pub open spec fn split(s: Seq<char>, sep: char) -> Seq<Seq<char>>
    decreases s.len(),
{
    let i = first_index_of(s, sep);
    if 0 <= i < s.len() {
        seq![s.take(i)] + split(s.skip(i + 1), sep)
    } else {
        seq![s]
    }
}

/// How often `c` occurs in `s`.
pub open spec fn occurrences(s: Seq<char>, c: char) -> nat
    decreases s.len(),
{
    if s.len() == 0 {
        0
    } else if s[0] == c {
        1 + occurrences(s.skip(1), c)
    } else {
        occurrences(s.skip(1), c)
    }
}

/// The pieces put together again with `sep` between neighbours.
pub open spec fn join(parts: Seq<Seq<char>>, sep: char) -> Seq<char>
    decreases parts.len(),
{
    if parts.len() == 0 {
        Seq::empty()
    } else if parts.len() == 1 {
        parts[0]
    } else {
        parts[0] + seq![sep] + join(parts.skip(1), sep)
    }
}

/// The characters that Unicode gives the property `White_Space`.
pub open spec fn is_whitespace(c: char) -> bool {
    let n = c as u32;
    ||| 0x09 <= n <= 0x0D
    ||| n == 0x20
    ||| n == 0x85
    ||| n == 0xA0
    ||| n == 0x1680
    ||| 0x2000 <= n <= 0x200A
    ||| n == 0x2028
    ||| n == 0x2029
    ||| n == 0x202F
    ||| n == 0x205F
    ||| n == 0x3000
}

/// `s` without its leading white space.
pub open spec fn trim_start(s: Seq<char>) -> Seq<char>
    decreases s.len(),
{
    if s.len() > 0 && is_whitespace(s[0]) {
        trim_start(s.skip(1))
    } else {
        s
    }
}

/// `s` without its trailing white space.
pub open spec fn trim_end(s: Seq<char>) -> Seq<char>
    decreases s.len(),
{
    if s.len() > 0 && is_whitespace(s.last()) {
        trim_end(s.drop_last())
    } else {
        s
    }
}

/// `s` without leading and trailing white space.
pub open spec fn trim(s: Seq<char>) -> Seq<char> {
    trim_end(trim_start(s))
}

/// The first line of a text, without its line ending, which is a line feed
/// or a carriage return with a line feed behind it. An empty text has no
/// line.
pub open spec fn first_line(s: Seq<char>) -> Option<Seq<char>> {
    if s.len() == 0 {
        None
    } else {
        let end = first_index_of(s, '\n');
        if 0 < end < s.len() && s[end - 1] == '\r' {
            Some(s.take(end - 1))
        } else {
            Some(s.take(end))
        }
    }
}

/// The decimal digit for a number below ten.
pub open spec fn digit(d: nat) -> char {
    "0123456789"@[d as int]
}

/// A number written in decimal digits, without leading zeros.
pub open spec fn decimal_text(n: nat) -> Seq<char>
    decreases n,
{
    if n < 10 {
        seq![digit(n)]
    } else {
        decimal_text(n / 10).push(digit(n % 10))
    }
}

/// The names with `, ` between them.
pub open spec fn listed(names: Seq<Seq<char>>) -> Seq<char>
    decreases names.len(),
{
    if names.len() == 0 {
        Seq::empty()
    } else if names.len() == 1 {
        names[0]
    } else {
        listed(names.drop_last()) + ", "@ + names.last()
    }
}

/// The texts of a row of strings.
pub open spec fn texts(strings: Seq<String>) -> Seq<Seq<char>> {
    Seq::new(strings.len(), |i: int| strings[i]@)
}

/// The text of a string that may be missing.
pub open spec fn text_of(string: Option<String>) -> Option<Seq<char>> {
    match string {
        Some(s) => Some(s@),
        None => None,
    }
}

/// `first_index_of` is within bounds, nothing before it is `c`, and it points
/// at a `c` unless it is the length.
pub proof fn lemma_first_index_of(s: Seq<char>, c: char)
    ensures
        0 <= first_index_of(s, c) <= s.len(),
        forall|j: int| 0 <= j < first_index_of(s, c) ==> s[j] != c,
        first_index_of(s, c) < s.len() ==> s[first_index_of(s, c)] == c,
    decreases s.len(),
{
    if s.len() > 0 && s[0] != c {
        let rest = s.skip(1);
        lemma_first_index_of(rest, c);
        assert forall|j: int| 0 <= j < first_index_of(s, c) implies s[j] != c by {
            if j > 0 {
                assert(s[j] == rest[j - 1]);
            }
        }
        if first_index_of(s, c) < s.len() {
            assert(s[first_index_of(s, c)] == rest[first_index_of(rest, c)]);
        }
    }
}

/// A position with no `c` before it, which holds a `c` or is the length, is
/// the first index of `c`.
pub proof fn lemma_first_index_of_unique(s: Seq<char>, c: char, k: int)
    requires
        0 <= k <= s.len(),
        forall|j: int| 0 <= j < k ==> s[j] != c,
        k < s.len() ==> s[k] == c,
    ensures
        first_index_of(s, c) == k,
    decreases s.len(),
{
    if s.len() > 0 && s[0] != c {
        let rest = s.skip(1);
        assert forall|j: int| 0 <= j < k - 1 implies rest[j] != c by {
            assert(rest[j] == s[j + 1]);
        }
        lemma_first_index_of_unique(rest, c, k - 1);
    }
}

/// Splitting yields at least one piece, and none of the pieces holds the
/// separator.
pub proof fn lemma_split_pieces(s: Seq<char>, sep: char)
    ensures
        split(s, sep).len() >= 1,
        forall|k: int|
            0 <= k < split(s, sep).len() ==> !(#[trigger] split(s, sep)[k]).contains(sep),
    decreases s.len(),
{
    lemma_first_index_of(s, sep);
    let i = first_index_of(s, sep);
    if i < s.len() {
        let rest = s.skip(i + 1);
        lemma_split_pieces(rest, sep);
        assert forall|k: int| 0 <= k < split(s, sep).len() implies !(#[trigger] split(
            s,
            sep,
        )[k]).contains(sep) by {
            if k > 0 {
                assert(split(s, sep)[k] == split(rest, sep)[k - 1]);
            }
        }
    }
}

/// Skipping characters that are not `c` loses no occurrence of `c`.
pub proof fn lemma_occurrences_skip(s: Seq<char>, c: char, k: int)
    requires
        0 <= k <= s.len(),
        forall|j: int| 0 <= j < k ==> s[j] != c,
    ensures
        occurrences(s, c) == occurrences(s.skip(k), c),
    decreases k,
{
    if k == 0 {
        assert(s.skip(0) == s);
    } else {
        let rest = s.skip(1);
        assert forall|j: int| 0 <= j < k - 1 implies rest[j] != c by {
            assert(rest[j] == s[j + 1]);
        }
        lemma_occurrences_skip(rest, c, k - 1);
        assert(rest.skip(k - 1) == s.skip(k));
    }
}

/// There is one piece more than there are separators.
pub proof fn lemma_split_count(s: Seq<char>, sep: char)
    ensures
        split(s, sep).len() == 1 + occurrences(s, sep),
    decreases s.len(),
{
    lemma_first_index_of(s, sep);
    let i = first_index_of(s, sep);
    lemma_occurrences_skip(s, sep, i);
    if i < s.len() {
        let from = s.skip(i);
        assert(from[0] == sep);
        assert(from.skip(1) == s.skip(i + 1));
        lemma_split_count(s.skip(i + 1), sep);
    } else {
        assert(s.skip(i).len() == 0);
    }
}

/// Joining what `split` gave restores the text.
pub proof fn lemma_join_split(s: Seq<char>, sep: char)
    ensures
        join(split(s, sep), sep) == s,
    decreases s.len(),
{
    lemma_first_index_of(s, sep);
    let i = first_index_of(s, sep);
    if i < s.len() {
        let rest = s.skip(i + 1);
        lemma_join_split(rest, sep);
        lemma_split_pieces(rest, sep);
        let parts = split(s, sep);
        assert(parts.skip(1) == split(rest, sep));
        assert(s.take(i) + seq![sep] + rest == s);
    }
}

/// The characters of a string, one element per Unicode scalar value.
pub fn chars_of(s: &str) -> (v: Vec<char>)
    ensures
        v@ == s@,
{
    let mut v: Vec<char> = Vec::new();
    for c in it: s.chars()
        invariant
            v@ == it.seq().take(it.index() as int),
            it.seq() == s@,
    {
        proof {
            assert(it.seq().take(it.index() + 1) == it.seq().take(it.index() as int).push(c));
        }
        v.push(c);
    }
    proof {
        assert(s@.take(s@.len() as int) == s@);
    }
    v
}

/// What occurs in a text occurs in every text that is built around it.
pub proof fn lemma_occurs_within(
    before: Seq<char>,
    s: Seq<char>,
    after: Seq<char>,
    p: Seq<char>,
    i: int,
)
    requires
        occurs_at(s, p, i),
    ensures
        occurs_at(before + s + after, p, before.len() + i),
        contains_text(before + s + after, p),
{
    let whole = before + s + after;
    assert(whole.subrange(before.len() + i, before.len() + i + p.len()) =~= s.subrange(
        i,
        i + p.len(),
    ));
}

/// Each of the names occurs in their list.
pub proof fn lemma_listed_names(names: Seq<Seq<char>>, i: int)
    requires
        0 <= i < names.len(),
    ensures
        contains_text(listed(names), names[i]),
    decreases names.len(),
{
    let empty = Seq::<char>::empty();
    if names.len() == 1 {
        assert(names[0].subrange(0, names[0].len() as int) =~= names[0]);
        assert(occurs_at(listed(names), names[i], 0));
    } else {
        let init = names.drop_last();
        if i == names.len() - 1 {
            assert(names.last().subrange(0, names.last().len() as int) =~= names.last());
            lemma_occurs_within(listed(init) + ", "@, names.last(), empty, names.last(), 0);
            assert(listed(init) + ", "@ + names.last() + empty =~= listed(names));
        } else {
            lemma_listed_names(init, i);
            let k = choose|k: int| occurs_at(listed(init), init[i], k);
            lemma_occurs_within(empty, listed(init), ", "@ + names.last(), init[i], k);
            assert(empty + listed(init) + (", "@ + names.last()) =~= listed(names));
        }
    }
}

/// The texts of a row with one more string are the texts of the row with one
/// more text.
pub proof fn lemma_texts_push(strings: Seq<String>, s: String)
    ensures
        texts(strings.push(s)) == texts(strings).push(s@),
{
    assert(texts(strings.push(s)) =~= texts(strings).push(s@));
}

/// A copy of a row of strings.
pub fn copy_strings(strings: &Vec<String>) -> (copy: Vec<String>)
    ensures
        texts(copy@) == texts(strings@),
{
    let mut copy: Vec<String> = Vec::new();
    let mut i: usize = 0;
    while i < strings.len()
        invariant
            i <= strings@.len(),
            texts(copy@) == texts(strings@).take(i as int),
        decreases strings@.len() - i,
    {
        let ghost before = copy@;
        let s = strings[i].clone();
        copy.push(s);
        proof {
            lemma_texts_push(before, s);
            assert(texts(strings@).take(i + 1) == texts(strings@).take(i as int).push(
                strings@[i as int]@,
            ));
        }
        i = i + 1;
    }
    proof {
        assert(texts(strings@).take(i as int) == texts(strings@));
    }
    copy
}

/// Writes the names in a row, with `, ` between them.
pub fn list_names(names: &Vec<String>) -> (list: String)
    ensures
        list@ == listed(texts(names@)),
{
    let mut list = String::new();
    let mut i: usize = 0;
    let ghost all = texts(names@);
    proof {
        assert(all.take(0) =~= Seq::<Seq<char>>::empty());
    }
    while i < names.len()
        invariant
            i <= names@.len(),
            all == texts(names@),
            list@ == listed(all.take(i as int)),
        decreases names@.len() - i,
    {
        proof {
            assert(all.take(i + 1).drop_last() == all.take(i as int));
            assert(all.take(i + 1).last() == names@[i as int]@);
            if i == 0 {
                assert(all.take(1)[0] == names@[0]@);
                assert(Seq::<char>::empty() + names@[0]@ =~= names@[0]@);
            }
        }
        if i > 0 {
            list = list.concat(", ");
        }
        list = list.concat(names[i].as_str());
        i = i + 1;
    }
    proof {
        assert(all.take(i as int) == all);
    }
    list
}

/// A copy of a string that may be missing.
pub fn copy_string(string: &Option<String>) -> (copy: Option<String>)
    ensures
        text_of(copy) == text_of(*string),
{
    match string {
        Some(s) => Some(s.clone()),
        None => None,
    }
}

/// Tells whether `p` occurs in `s` at position `i`.
pub fn matches_at(s: &Vec<char>, p: &Vec<char>, i: usize) -> (found: bool)
    ensures
        found == occurs_at(s@, p@, i as int),
{
    if i > s.len() || p.len() > s.len() - i {
        return false;
    }
    let mut k: usize = 0;
    while k < p.len()
        invariant
            k <= p.len(),
            i + p.len() <= s.len(),
            forall|j: int| 0 <= j < k ==> s@[i + j] == p@[j],
        decreases p.len() - k,
    {
        if s[i + k] != p[k] {
            proof {
                assert(s@.subrange(i as int, i + p.len())[k as int] == s@[i + k]);
            }
            return false;
        }
        k = k + 1;
    }
    proof {
        assert(s@.subrange(i as int, i + p.len()) =~= p@);
    }
    true
}

/// Tells whether `p` occurs anywhere in `s`.
pub fn contains(s: &Vec<char>, p: &Vec<char>) -> (found: bool)
    ensures
        found == contains_text(s@, p@),
{
    if p.len() > s.len() {
        proof {
            assert forall|i: int| !occurs_at(s@, p@, i) by {}
        }
        return false;
    }
    let last: usize = s.len() - p.len();
    let mut i: usize = 0;
    loop
        invariant
            i <= last,
            last == s.len() - p.len(),
            forall|j: int| 0 <= j < i ==> !occurs_at(s@, p@, j),
        decreases last - i,
    {
        if matches_at(s, p, i) {
            return true;
        }
        if i == last {
            proof {
                assert forall|j: int| !occurs_at(s@, p@, j) by {}
            }
            return false;
        }
        i = i + 1;
    }
}

/// Tells whether two texts are the same.
pub fn same_text(a: &Vec<char>, b: &Vec<char>) -> (same: bool)
    ensures
        same == (a@ == b@),
{
    if a.len() != b.len() {
        return false;
    }
    let found = matches_at(a, b, 0);
    proof {
        assert(a@.subrange(0, a@.len() as int) == a@);
    }
    found
}

/// Tells whether the text equals the string.
pub fn is_text(a: &Vec<char>, literal: &str) -> (same: bool)
    ensures
        same == (a@ == literal@),
{
    let b = chars_of(literal);
    same_text(a, &b)
}

/// The position of the first `c` at or after `from`; the length if there is
/// none.
pub fn find_from(s: &Vec<char>, from: usize, c: char) -> (at: usize)
    requires
        from <= s.len(),
    ensures
        from <= at <= s.len(),
        at == from + first_index_of(s@.skip(from as int), c),
{
    let mut i: usize = from;
    while i < s.len() && s[i] != c
        invariant
            from <= i <= s.len(),
            forall|j: int| from <= j < i ==> s@[j] != c,
        decreases s.len() - i,
    {
        i = i + 1;
    }
    proof {
        let rest = s@.skip(from as int);
        assert forall|j: int| 0 <= j < i - from implies rest[j] != c by {
            assert(rest[j] == s@[from + j]);
        }
        lemma_first_index_of_unique(rest, c, i - from);
    }
    i
}

/// The index ranges of the pieces of `s` between occurrences of `sep`: each
/// range is a start and an end, the end exclusive.
pub fn split_ranges(s: &Vec<char>, sep: char) -> (ranges: Vec<(usize, usize)>)
    ensures
        ranges@.len() == split(s@, sep).len(),
        forall|k: int|
            0 <= k < ranges@.len() ==> {
                &&& (#[trigger] ranges@[k]).0 <= ranges@[k].1 <= s@.len()
                &&& s@.subrange(ranges@[k].0 as int, ranges@[k].1 as int) == split(s@, sep)[k]
                &&& split(s@, sep).skip(k) == split(s@.skip(ranges@[k].0 as int), sep)
            },
{
    let mut ranges: Vec<(usize, usize)> = Vec::new();
    let mut start: usize = 0;
    let ghost mut done: Seq<Seq<char>> = Seq::empty();
    proof {
        assert(s@.skip(0) == s@);
        assert(done + split(s@, sep) == split(s@, sep));
    }
    loop
        invariant_except_break
            split(s@, sep) == done + split(s@.skip(start as int), sep),
        invariant
            start <= s@.len(),
            ranges@.len() == done.len(),
            forall|k: int|
                0 <= k < ranges@.len() ==> {
                    &&& (#[trigger] ranges@[k]).0 <= ranges@[k].1 <= s@.len()
                    &&& s@.subrange(ranges@[k].0 as int, ranges@[k].1 as int) == done[k]
                    &&& split(s@, sep).skip(k) == split(s@.skip(ranges@[k].0 as int), sep)
                },
        ensures
            split(s@, sep) == done,
        decreases s@.len() - start,
    {
        let at = find_from(s, start, sep);
        let ghost rest = s@.skip(start as int);
        proof {
            lemma_first_index_of(rest, sep);
            assert((done + split(rest, sep)).skip(done.len() as int) == split(rest, sep));
        }
        ranges.push((start, at));
        if at < s.len() {
            proof {
                assert(rest.take(at - start) == s@.subrange(start as int, at as int));
                assert(rest.skip(at - start + 1) == s@.skip(at + 1));
                assert(done + (seq![rest.take(at - start)] + split(s@.skip(at + 1), sep)) == done.push(
                    rest.take(at - start),
                ) + split(s@.skip(at + 1), sep));
                done = done.push(rest.take(at - start));
            }
            start = at + 1;
        } else {
            proof {
                assert(rest == s@.subrange(start as int, at as int));
                assert(done + seq![rest] == done.push(rest));
                done = done.push(rest);
            }
            break;
        }
    }
    ranges
}

/// The range of the first line of `s`, if `s` is not empty.
pub fn first_line_range(s: &Vec<char>) -> (range: Option<(usize, usize)>)
    ensures
        match first_line(s@) {
            Some(line) => range matches Some(r) && r.0 == 0 && r.1 <= s@.len() && s@.subrange(
                0,
                r.1 as int,
            ) == line,
            None => range is None,
        },
{
    if s.len() == 0 {
        return None;
    }
    let end = find_from(s, 0, '\n');
    proof {
        assert(s@.skip(0) == s@);
    }
    if 0 < end && end < s.len() && s[end - 1] == '\r' {
        Some((0, end - 1))
    } else {
        Some((0, end))
    }
}

/// The digit for a number below ten, as a string.
fn digit_str(d: usize) -> (s: &'static str)
    requires
        d < 10,
    ensures
        s@ == seq![digit(d as nat)],
{
    proof {
        reveal_strlit("0123456789");
    }
    let s = "0123456789".substring_char(d, d + 1);
    proof {
        assert(s@ =~= seq![digit(d as nat)]);
    }
    s
}

/// Writes a number in decimal digits.
pub fn decimal(n: usize) -> (s: String)
    ensures
        s@ == decimal_text(n as nat),
    decreases n,
{
    if n < 10 {
        String::from_str(digit_str(n))
    } else {
        let head = decimal(n / 10);
        let s = head.concat(digit_str(n % 10));
        proof {
            assert(s@ =~= decimal_text((n / 10) as nat).push(digit((n % 10) as nat)));
        }
        s
    }
}

/// Tells whether the character is white space.
pub fn is_space(c: char) -> (space: bool)
    ensures
        space == is_whitespace(c),
{
    let n: u32 = c as u32;
    (0x09 <= n && n <= 0x0D) || n == 0x20 || n == 0x85 || n == 0xA0 || n == 0x1680 || (0x2000 <= n
        && n <= 0x200A) || n == 0x2028 || n == 0x2029 || n == 0x202F || n == 0x205F || n == 0x3000
}

/// `trim_start` cuts a prefix that is all white space and stops at the first
/// character that is not.
pub proof fn lemma_trim_start(s: Seq<char>, k: int)
    requires
        0 <= k <= s.len(),
        forall|j: int| 0 <= j < k ==> is_whitespace(s[j]),
        k < s.len() ==> !is_whitespace(s[k]),
    ensures
        trim_start(s) == s.skip(k),
    decreases s.len(),
{
    if k == 0 {
        assert(s.skip(0) == s);
    } else {
        let rest = s.skip(1);
        assert forall|j: int| 0 <= j < k - 1 implies is_whitespace(rest[j]) by {
            assert(rest[j] == s[j + 1]);
        }
        lemma_trim_start(rest, k - 1);
        assert(rest.skip(k - 1) == s.skip(k));
    }
}

/// `trim_end` cuts a suffix that is all white space and stops behind the last
/// character that is not.
pub proof fn lemma_trim_end(s: Seq<char>, k: int)
    requires
        0 <= k <= s.len(),
        forall|j: int| k <= j < s.len() ==> is_whitespace(s[j]),
        k > 0 ==> !is_whitespace(s[k - 1]),
    ensures
        trim_end(s) == s.take(k),
    decreases s.len(),
{
    if k == s.len() {
        assert(s.take(k) == s);
    } else {
        let rest = s.drop_last();
        lemma_trim_end(rest, k);
        assert(rest.take(k) == s.take(k));
    }
}

/// The range of `s[from..to]` that is left when leading and trailing white
/// space is cut.
pub fn trim_range(s: &Vec<char>, from: usize, to: usize) -> (range: (usize, usize))
    requires
        from <= to <= s.len(),
    ensures
        from <= range.0 <= range.1 <= to,
        s@.subrange(range.0 as int, range.1 as int) == trim(s@.subrange(from as int, to as int)),
{
    let mut lo: usize = from;
    while lo < to && is_space(s[lo])
        invariant
            from <= lo <= to <= s.len(),
            forall|j: int| from <= j < lo ==> is_whitespace(s@[j]),
        decreases to - lo,
    {
        lo = lo + 1;
    }
    let mut hi: usize = to;
    while hi > lo && is_space(s[hi - 1])
        invariant
            lo <= hi <= to <= s.len(),
            forall|j: int| hi <= j < to ==> is_whitespace(s@[j]),
        decreases hi - lo,
    {
        hi = hi - 1;
    }
    proof {
        let whole = s@.subrange(from as int, to as int);
        lemma_trim_start(whole, lo - from);
        let tail = whole.skip(lo - from);
        assert(tail == s@.subrange(lo as int, to as int));
        lemma_trim_end(tail, hi - lo);
        assert(tail.take(hi - lo) == s@.subrange(lo as int, hi as int));
    }
    (lo, hi)
}

} // verus!
