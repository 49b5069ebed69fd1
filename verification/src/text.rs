//! Character-level text operations on object keys and file names.
//!
//! Every operation is specified over the sequence of characters of its
//! arguments. Positions and lengths count characters, not bytes.

use vstd::prelude::*;
use vstd::string::*;

verus! {

/// The characters of every string of a sequence, in order.
pub open spec fn views(items: Seq<String>) -> Seq<Seq<char>> {
    items.map_values(|item: String| item@)
}

/// The characters of a text that may be absent.
pub open spec fn optional_view(item: Option<String>) -> Option<Seq<char>> {
    match item {
        Some(text) => Some(text@),
        None => None,
    }
}

/// `pattern` stands in `s` at character position `at`.
pub open spec fn occurs_at(s: Seq<char>, pattern: Seq<char>, at: int) -> bool {
    &&& 0 <= at
    &&& at + pattern.len() <= s.len()
    &&& s.subrange(at, at + pattern.len()) == pattern
}

/// `s` begins with `pattern`.
pub open spec fn begins_with(s: Seq<char>, pattern: Seq<char>) -> bool {
    occurs_at(s, pattern, 0)
}

/// `s` ends with `pattern`.
pub open spec fn finishes_with(s: Seq<char>, pattern: Seq<char>) -> bool {
    occurs_at(s, pattern, s.len() - pattern.len())
}

/// Position of the first occurrence of `pattern` in `s` at or after `from`.
pub open spec fn search(s: Seq<char>, pattern: Seq<char>, from: int) -> Option<int>
    decreases s.len() - from + 1,
{
    if from < 0 || from + pattern.len() > s.len() {
        None
    } else if occurs_at(s, pattern, from) {
        Some(from)
    } else {
        search(s, pattern, from + 1)
    }
}

/// Position of the first occurrence of `pattern` in `s`.
pub open spec fn first_match(s: Seq<char>, pattern: Seq<char>) -> Option<int> {
    search(s, pattern, 0)
}

/// Position of the first `c` in `s`, or the length of `s` where there is none.
pub open spec fn position(s: Seq<char>, c: char) -> int
    decreases s.len(),
{
    if s.len() == 0 || s[0] == c {
        0
    } else {
        1 + position(s.drop_first(), c)
    }
}

/// The pieces of `s` between occurrences of `delimiter`. There is always at
/// least one piece; neighbouring delimiters enclose an empty piece.
pub open spec fn split(s: Seq<char>, delimiter: char) -> Seq<Seq<char>>
    decreases s.len(),
{
    let at = position(s, delimiter);
    if at < 0 || at >= s.len() {
        seq![s]
    } else {
        seq![s.subrange(0, at)] + split(s.subrange(at + 1, s.len() as int), delimiter)
    }
}

/// The piece of `s` with the given index, if there are that many.
pub open spec fn piece(s: Seq<char>, delimiter: char, index: int) -> Option<Seq<char>> {
    let pieces = split(s, delimiter);
    if 0 <= index < pieces.len() {
        Some(pieces[index])
    } else {
        None
    }
}

/// The piece of `s` after the last `delimiter`, or all of `s`.
pub open spec fn last_piece(s: Seq<char>, delimiter: char) -> Seq<char> {
    split(s, delimiter).last()
}

/// `s` without any number of leading repetitions of `pattern`.
pub open spec fn without_prefix(s: Seq<char>, pattern: Seq<char>) -> Seq<char>
    decreases s.len(),
{
    if pattern.len() > 0 && begins_with(s, pattern) {
        without_prefix(s.subrange(pattern.len() as int, s.len() as int), pattern)
    } else {
        s
    }
}

/// `s` without any number of trailing repetitions of `pattern`.
pub open spec fn without_suffix(s: Seq<char>, pattern: Seq<char>) -> Seq<char>
    decreases s.len(),
{
    if pattern.len() > 0 && finishes_with(s, pattern) {
        without_suffix(s.subrange(0, s.len() - pattern.len()), pattern)
    } else {
        s
    }
}

/// `s` without its leading run of the character `c`.
pub open spec fn without_leading(s: Seq<char>, c: char) -> Seq<char>
    decreases s.len(),
{
    if s.len() > 0 && s[0] == c {
        without_leading(s.drop_first(), c)
    } else {
        s
    }
}

/// A path segment of `s` begins with a dot at position `at`.
pub open spec fn hidden_at(s: Seq<char>, at: int) -> bool {
    &&& 0 <= at < s.len()
    &&& s[at] == '.'
    &&& (at == 0 || s[at - 1] == '/')
}

/// Some path segment of `s` begins with a dot.
pub open spec fn has_hidden_segment(s: Seq<char>) -> bool {
    exists|at: int| hidden_at(s, at)
}

/// The decimal digit for a value below ten.
pub open spec fn digit(value: nat) -> char {
    if value == 0 {
        '0'
    } else if value == 1 {
        '1'
    } else if value == 2 {
        '2'
    } else if value == 3 {
        '3'
    } else if value == 4 {
        '4'
    } else if value == 5 {
        '5'
    } else if value == 6 {
        '6'
    } else if value == 7 {
        '7'
    } else if value == 8 {
        '8'
    } else {
        '9'
    }
}

/// The decimal numeral of `value`, without leading zeros.
pub open spec fn decimal(value: nat) -> Seq<char>
    decreases value,
{
    if value < 10 {
        seq![digit(value)]
    } else {
        decimal(value / 10).push(digit(value % 10))
    }
}

/// `position` is the least index that holds `c`.
pub proof fn lemma_position(s: Seq<char>, c: char)
    ensures
        0 <= position(s, c) <= s.len(),
        forall|j: int| 0 <= j < position(s, c) ==> s[j] != c,
        position(s, c) < s.len() ==> s[position(s, c)] == c,
    decreases s.len(),
{
    if s.len() == 0 || s[0] == c {
    } else {
        let rest = s.drop_first();
        lemma_position(rest, c);
        assert forall|j: int| 0 <= j < position(s, c) implies s[j] != c by {
            if j > 0 {
                assert(s[j] == rest[j - 1]);
            }
        }
        if position(s, c) < s.len() {
            assert(s[position(s, c)] == rest[position(s, c) - 1]);
        }
    }
}

/// An index with no `c` before it, which holds `c` or is the end, is `position`.
pub proof fn lemma_position_is(s: Seq<char>, c: char, at: int)
    requires
        0 <= at <= s.len(),
        forall|j: int| 0 <= j < at ==> s[j] != c,
        at < s.len() ==> s[at] == c,
    ensures
        position(s, c) == at,
{
    lemma_position(s, c);
    let found = position(s, c);
    if found < at {
        assert(s[found] != c);
    }
}

/// `search` returns the least position at or after `from` where the pattern stands.
pub proof fn lemma_search(s: Seq<char>, pattern: Seq<char>, from: int)
    requires
        0 <= from,
    ensures
        search(s, pattern, from) matches Some(at) ==> from <= at && occurs_at(s, pattern, at)
            && forall|j: int| from <= j < at ==> !occurs_at(s, pattern, j),
        search(s, pattern, from) is None ==> forall|j: int| from <= j ==> !occurs_at(s, pattern, j),
    decreases s.len() - from + 1,
{
    if from + pattern.len() > s.len() {
    } else if occurs_at(s, pattern, from) {
    } else {
        lemma_search(s, pattern, from + 1);
    }
}

/// Splitting a text that holds its first delimiter at `at`.
pub proof fn lemma_split_at(s: Seq<char>, delimiter: char, at: int)
    requires
        0 <= at < s.len(),
        s[at] == delimiter,
        forall|j: int| 0 <= j < at ==> s[j] != delimiter,
    ensures
        split(s, delimiter) == seq![s.subrange(0, at)] + split(
            s.subrange(at + 1, s.len() as int),
            delimiter,
        ),
{
    lemma_position_is(s, delimiter, at);
}

/// Splitting a text that holds no delimiter.
pub proof fn lemma_split_whole(s: Seq<char>, delimiter: char)
    requires
        forall|j: int| 0 <= j < s.len() ==> s[j] != delimiter,
    ensures
        split(s, delimiter) == seq![s],
{
    lemma_position_is(s, delimiter, s.len() as int);
}

/// The characters of `s`, one element each.
pub fn chars_of(s: &str) -> (chars: Vec<char>)
    ensures
        chars@ == s@,
{
    let mut chars: Vec<char> = Vec::new();
    for c in it: s.chars()
        invariant
            chars@ == it.seq().take(it.index() as int),
            it.seq() == s@,
    {
        chars.push(c);
    }
    chars
}

/// Whether two texts hold the same characters.
pub fn same_text(a: &str, b: &str) -> (same: bool)
    ensures
        same == (a@ == b@),
{
    let left = a.to_owned();
    let right = b.to_owned();
    left == right
}

/// A copy of a text.
pub fn copy_text(s: &String) -> (copy: String)
    ensures
        copy@ == s@,
{
    s.clone()
}

/// A copy of a text that may be absent.
pub fn copy_optional(s: &Option<String>) -> (copy: Option<String>)
    ensures
        optional_view(copy) == optional_view(*s),
{
    match s {
        Some(text) => Some(copy_text(text)),
        None => None,
    }
}

/// A copy of a list of texts.
pub fn copy_texts(items: &Vec<String>) -> (copy: Vec<String>)
    ensures
        views(copy@) == views(items@),
{
    let mut copy: Vec<String> = Vec::new();
    let mut at: usize = 0;
    while at < items.len()
        invariant
            at <= items.len(),
            copy.len() == at,
            forall|j: int| 0 <= j < at ==> copy@[j]@ == items@[j]@,
        decreases items.len() - at,
    {
        copy.push(copy_text(&items[at]));
        at += 1;
    }
    assert(views(copy@) =~= views(items@));
    copy
}

/// The characters of `s` from `from` up to, not including, `to`.
pub fn slice(s: &str, from: usize, to: usize) -> (part: String)
    requires
        from <= to <= s@.len(),
    ensures
        part@ == s@.subrange(from as int, to as int),
{
    s.substring_char(from, to).to_owned()
}

/// `a` followed by `b`.
pub fn concat(a: &str, b: &str) -> (joined: String)
    ensures
        joined@ == a@ + b@,
{
    a.to_owned().concat(b)
}

fn matches_at(s: &Vec<char>, pattern: &Vec<char>, at: usize) -> (found: bool)
    ensures
        found == occurs_at(s@, pattern@, at as int),
{
    if pattern.len() > s.len() || at > s.len() - pattern.len() {
        return false;
    }
    let mut k: usize = 0;
    while k < pattern.len()
        invariant
            k <= pattern.len(),
            at + pattern.len() <= s.len(),
            forall|j: int| 0 <= j < k ==> s@[at + j] == pattern@[j],
        decreases pattern.len() - k,
    {
        if s[at + k] != pattern[k] {
            proof {
                let window = s@.subrange(at as int, at + pattern.len());
                assert(window[k as int] == s@[at + k]);
            }
            return false;
        }
        k += 1;
    }
    assert(s@.subrange(at as int, at + pattern.len()) =~= pattern@);
    true
}

/// Whether `s` begins with `pattern`.
pub fn starts_with(s: &str, pattern: &str) -> (found: bool)
    ensures
        found == begins_with(s@, pattern@),
{
    let chars = chars_of(s);
    let wanted = chars_of(pattern);
    matches_at(&chars, &wanted, 0)
}

/// Whether `s` ends with `pattern`.
pub fn ends_with(s: &str, pattern: &str) -> (found: bool)
    ensures
        found == finishes_with(s@, pattern@),
{
    let chars = chars_of(s);
    let wanted = chars_of(pattern);
    if wanted.len() > chars.len() {
        return false;
    }
    matches_at(&chars, &wanted, chars.len() - wanted.len())
}

/// Position of the first occurrence of `pattern` in `s`.
pub fn find(s: &str, pattern: &str) -> (found: Option<usize>)
    ensures
        found is Some == first_match(s@, pattern@) is Some,
        found matches Some(at) ==> first_match(s@, pattern@) == Some(at as int) && occurs_at(
            s@,
            pattern@,
            at as int,
        ) && forall|j: int| 0 <= j < at ==> !occurs_at(s@, pattern@, j),
        found is None ==> forall|j: int| !occurs_at(s@, pattern@, j),
{
    proof {
        lemma_search(s@, pattern@, 0);
    }
    let chars = chars_of(s);
    let wanted = chars_of(pattern);
    if wanted.len() > chars.len() {
        return None;
    }
    let last: usize = chars.len() - wanted.len();
    let mut at: usize = 0;
    loop
        invariant
            at <= last,
            last == chars.len() - wanted.len(),
            wanted.len() <= chars.len(),
            chars@ == s@,
            wanted@ == pattern@,
            search(s@, pattern@, 0) == search(s@, pattern@, at as int),
        decreases last - at,
    {
        if matches_at(&chars, &wanted, at) {
            proof {
                lemma_search(s@, pattern@, 0);
            }
            return Some(at);
        }
        if at == last {
            assert(search(s@, pattern@, at + 1) is None);
            proof {
                lemma_search(s@, pattern@, 0);
            }
            return None;
        }
        at += 1;
    }
}

/// `s` without any number of leading repetitions of `pattern`.
pub fn trim_prefix(s: &str, pattern: &str) -> (rest: String)
    ensures
        rest@ == without_prefix(s@, pattern@),
{
    let chars = chars_of(s);
    let wanted = chars_of(pattern);
    let n = chars.len();
    let mut from: usize = 0;
    assert(s@.subrange(0, n as int) =~= s@);
    if wanted.len() > 0 {
        while matches_at(&chars, &wanted, from)
            invariant
                from <= n,
                n == chars.len(),
                wanted.len() > 0,
                chars@ == s@,
                wanted@ == pattern@,
                without_prefix(s@, pattern@) == without_prefix(
                    s@.subrange(from as int, n as int),
                    pattern@,
                ),
            decreases n - from,
        {
            proof {
                let here = s@.subrange(from as int, n as int);
                assert(here.subrange(0, pattern@.len() as int) =~= s@.subrange(
                    from as int,
                    from + pattern@.len(),
                ));
                assert(here.subrange(pattern@.len() as int, here.len() as int) =~= s@.subrange(
                    from + pattern@.len(),
                    n as int,
                ));
            }
            from += wanted.len();
        }
        proof {
            let here = s@.subrange(from as int, n as int);
            if from + pattern@.len() <= n {
                assert(here.subrange(0, pattern@.len() as int) =~= s@.subrange(
                    from as int,
                    from + pattern@.len(),
                ));
            }
        }
    }
    slice(s, from, n)
}

/// `s` without any number of trailing repetitions of `pattern`.
pub fn trim_suffix(s: &str, pattern: &str) -> (rest: String)
    ensures
        rest@ == without_suffix(s@, pattern@),
{
    let chars = chars_of(s);
    let wanted = chars_of(pattern);
    let mut to: usize = chars.len();
    assert(s@.subrange(0, to as int) =~= s@);
    if wanted.len() > 0 {
        while to >= wanted.len() && matches_at(&chars, &wanted, to - wanted.len())
            invariant
                to <= chars.len(),
                wanted.len() > 0,
                chars@ == s@,
                wanted@ == pattern@,
                without_suffix(s@, pattern@) == without_suffix(s@.subrange(0, to as int), pattern@),
            decreases to,
        {
            proof {
                let here = s@.subrange(0, to as int);
                assert(here.subrange(here.len() - pattern@.len(), here.len() as int) =~= s@.subrange(
                    to - pattern@.len(),
                    to as int,
                ));
                assert(here.subrange(0, here.len() - pattern@.len()) =~= s@.subrange(
                    0,
                    to - pattern@.len(),
                ));
            }
            to -= wanted.len();
        }
        proof {
            let here = s@.subrange(0, to as int);
            if to >= pattern@.len() {
                assert(here.subrange(here.len() - pattern@.len(), here.len() as int) =~= s@.subrange(
                    to - pattern@.len(),
                    to as int,
                ));
            }
        }
    }
    slice(s, 0, to)
}

/// `s` without its leading run of the character `c`.
pub fn trim_leading(s: &str, c: char) -> (rest: String)
    ensures
        rest@ == without_leading(s@, c),
{
    let chars = chars_of(s);
    let n = chars.len();
    let mut from: usize = 0;
    assert(s@.subrange(0, n as int) =~= s@);
    while from < n && chars[from] == c
        invariant
            from <= n,
            n == chars.len(),
            chars@ == s@,
            without_leading(s@, c) == without_leading(s@.subrange(from as int, n as int), c),
        decreases n - from,
    {
        proof {
            let here = s@.subrange(from as int, n as int);
            assert(here.drop_first() =~= s@.subrange(from + 1, n as int));
        }
        from += 1;
    }
    slice(s, from, n)
}

/// The pieces of `s` between occurrences of `delimiter`.
pub fn split_text(s: &str, delimiter: char) -> (pieces: Vec<String>)
    ensures
        views(pieces@) == split(s@, delimiter),
        pieces.len() >= 1,
{
    let chars = chars_of(s);
    let n = chars.len();
    let mut pieces: Vec<String> = Vec::new();
    let mut start: usize = 0;
    let mut at: usize = 0;
    assert(s@.subrange(0, n as int) =~= s@);
    assert(views(pieces@) + split(s@, delimiter) =~= split(s@, delimiter));
    while at < n
        invariant
            start <= at <= n,
            n == chars.len(),
            chars@ == s@,
            forall|j: int| start <= j < at ==> s@[j] != delimiter,
            split(s@, delimiter) == views(pieces@) + split(
                s@.subrange(start as int, n as int),
                delimiter,
            ),
        decreases n - at,
    {
        if chars[at] == delimiter {
            let part = slice(s, start, at);
            proof {
                let here = s@.subrange(start as int, n as int);
                lemma_split_at(here, delimiter, at - start);
                assert(here.subrange(0, at - start) =~= part@);
                assert(here.subrange(at - start + 1, here.len() as int) =~= s@.subrange(
                    at + 1,
                    n as int,
                ));
                assert(views(pieces@.push(part)) =~= views(pieces@) + seq![part@]);
            }
            pieces.push(part);
            start = at + 1;
        }
        at += 1;
    }
    let part = slice(s, start, n);
    proof {
        lemma_split_whole(s@.subrange(start as int, n as int), delimiter);
        assert(views(pieces@.push(part)) =~= views(pieces@) + seq![part@]);
    }
    pieces.push(part);
    pieces
}

/// Whether some path segment of `s` begins with a dot.
pub fn hidden(s: &str) -> (found: bool)
    ensures
        found == has_hidden_segment(s@),
{
    let chars = chars_of(s);
    let mut at: usize = 0;
    while at < chars.len()
        invariant
            at <= chars.len(),
            chars@ == s@,
            forall|j: int| 0 <= j < at ==> !hidden_at(s@, j),
        decreases chars.len() - at,
    {
        if chars[at] == '.' && (at == 0 || chars[at - 1] == '/') {
            assert(hidden_at(s@, at as int));
            return true;
        }
        at += 1;
    }
    false
}

/// The decimal numeral of `value`.
pub fn decimal_text(value: usize) -> (text: String)
    ensures
        text@ == decimal(value as nat),
    decreases value,
{
    let digits = "0123456789";
    proof {
        reveal_strlit("0123456789");
    }
    let low = value % 10;
    let mut text = slice(digits, low, low + 1);
    assert(text@ =~= seq![digit(low as nat)]);
    if value < 10 {
        return text;
    }
    let head = decimal_text(value / 10);
    let text = concat(head.as_str(), text.as_str());
    assert(text@ =~= decimal((value / 10) as nat).push(digit((value % 10) as nat)));
    text
}

} // verus!
