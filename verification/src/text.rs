//! Text as sequences of characters: what the portal's string handling means, and verified
//! functions that do it.
use vstd::prelude::*;
use vstd::string::*;

verus! {

/// `String::push`, as its documentation gives it: the character is appended to the end of the
/// string.
pub assume_specification[ String::push ](s: &mut String, c: char)
    ensures
        final(s)@ == old(s)@.push(c),
;

/// The views of the items of a sequence, in order.
pub open spec fn each_view<T: View>(items: Seq<T>) -> Seq<T::V> {
    Seq::new(items.len(), |i: int| items[i]@)
}

/// The view of an optional item.
pub open spec fn opt_view<T: View>(item: Option<T>) -> Option<T::V> {
    match item {
        Some(t) => Some(t@),
        None => None,
    }
}

/// `part` stands in `s` from position `i` on.
pub open spec fn occurs_at(s: Seq<char>, part: Seq<char>, i: int) -> bool {
    0 <= i && i + part.len() <= s.len() && s.subrange(i, i + part.len()) == part
}

/// `part` stands somewhere in `s`.
pub open spec fn contains_text(s: Seq<char>, part: Seq<char>) -> bool {
    exists|i: int| occurs_at(s, part, i)
}

/// The first position from `i` on at which `part` stands in `s`.
pub open spec fn first_from(s: Seq<char>, part: Seq<char>, i: int) -> Option<int>
    decreases s.len() + 1 - i,
{
    if i + part.len() > s.len() {
        None
    } else if occurs_at(s, part, i) {
        Some(i)
    } else {
        first_from(s, part, i + 1)
    }
}

/// The two sides of the first `sep` in `s`.
pub open spec fn split_first(s: Seq<char>, sep: Seq<char>) -> Option<(Seq<char>, Seq<char>)> {
    match first_from(s, sep, 0) {
        Some(i) => Some((s.take(i), s.skip(i + sep.len()))),
        None => None,
    }
}

/// The last position before `end` that holds `c`.
pub open spec fn last_before(s: Seq<char>, c: char, end: int) -> Option<int>
    decreases end,
{
    if end <= 0 {
        None
    } else if s[end - 1] == c {
        Some(end - 1)
    } else {
        last_before(s, c, end - 1)
    }
}

/// The two sides of the last `c` in `s`.
pub open spec fn split_last(s: Seq<char>, c: char) -> Option<(Seq<char>, Seq<char>)> {
    match last_before(s, c, s.len() as int) {
        Some(i) => Some((s.take(i), s.skip(i + 1))),
        None => None,
    }
}

/// The ASCII lower-case form of a character; every other character stands for itself.
pub open spec fn lower(c: char) -> char {
    if 'A' <= c && c <= 'Z' {
        ((c as u32) + 32) as char
    } else {
        c
    }
}

/// `s` with its ASCII letters in lower case.
pub open spec fn lowered(s: Seq<char>) -> Seq<char> {
    Seq::new(s.len(), |i: int| lower(s[i]))
}

/// An ASCII decimal digit.
pub open spec fn is_digit(c: char) -> bool {
    '0' <= c && c <= '9'
}

/// Every character of `s` is an ASCII decimal digit.
pub open spec fn all_digits(s: Seq<char>) -> bool {
    forall|i: int| 0 <= i < s.len() ==> is_digit(#[trigger] s[i])
}

/// The characters with Unicode's `White_Space` property.
pub open spec fn is_white(c: char) -> bool {
    ||| '\u{9}' <= c && c <= '\u{d}'
    ||| c == ' '
    ||| c == '\u{85}'
    ||| c == '\u{a0}'
    ||| c == '\u{1680}'
    ||| '\u{2000}' <= c && c <= '\u{200a}'
    ||| c == '\u{2028}'
    ||| c == '\u{2029}'
    ||| c == '\u{202f}'
    ||| c == '\u{205f}'
    ||| c == '\u{3000}'
}

/// How many white-space characters `s` begins with.
pub open spec fn lead_len(s: Seq<char>) -> nat
    decreases s.len(),
{
    if s.len() > 0 && is_white(s[0]) {
        1 + lead_len(s.drop_first())
    } else {
        0
    }
}

/// `s` without the white space at its beginning.
pub open spec fn trimmed_start(s: Seq<char>) -> Seq<char> {
    s.skip(lead_len(s) as int)
}

/// `s` without the white space at its end.
pub open spec fn trimmed_end(s: Seq<char>) -> Seq<char>
    decreases s.len(),
{
    if s.len() > 0 && is_white(s.last()) {
        trimmed_end(s.drop_last())
    } else {
        s
    }
}

/// `s` without the white space at either end.
pub open spec fn trimmed(s: Seq<char>) -> Seq<char> {
    trimmed_end(trimmed_start(s))
}

/// `s` without one carriage return at its end.
pub open spec fn without_cr(s: Seq<char>) -> Seq<char> {
    if s.len() > 0 && s.last() == '\r' {
        s.drop_last()
    } else {
        s
    }
}

/// The first position from `i` on that holds a line feed; the length of `s` where there is none.
pub open spec fn line_end(s: Seq<char>, i: int) -> int
    decreases s.len() - i,
{
    if i >= s.len() {
        s.len() as int
    } else if s[i] == '\n' {
        i
    } else {
        line_end(s, i + 1)
    }
}

/// The lines of `s` from position `i` on. A line ends with a line feed, which may follow a
/// carriage return; the last one may end with the text.
pub open spec fn lines_from(s: Seq<char>, i: int) -> Seq<Seq<char>>
    decreases s.len() - i,
    via lines_from_decreases
{
    if i >= s.len() {
        Seq::empty()
    } else {
        let end = line_end(s, i);
        if end >= s.len() {
            seq![s.skip(i)]
        } else {
            seq![without_cr(s.subrange(i, end))] + lines_from(s, end + 1)
        }
    }
}

#[via_fn]
proof fn lines_from_decreases(s: Seq<char>, i: int) {
    lemma_line_end(s, i);
}

proof fn lemma_line_end(s: Seq<char>, i: int)
    ensures
        i <= s.len() ==> i <= line_end(s, i) <= s.len(),
    decreases s.len() - i,
{
    if i < s.len() && s[i] != '\n' {
        lemma_line_end(s, i + 1);
    }
}

/// The lines of `s`.
pub open spec fn lines_of(s: Seq<char>) -> Seq<Seq<char>> {
    lines_from(s, 0)
}

/// The decimal digit for a number below ten.
pub open spec fn digit_char(n: nat) -> char {
    (48 + n) as char
}

/// A number in decimal, without leading zeros.
pub open spec fn decimal(n: nat) -> Seq<char>
    decreases n,
{
    if n < 10 {
        seq![digit_char(n)]
    } else {
        decimal(n / 10).push(digit_char(n % 10))
    }
}

/// One text comes before another in the order of their characters.
pub open spec fn text_before(a: Seq<char>, b: Seq<char>) -> bool
    decreases a.len(),
{
    if b.len() == 0 {
        false
    } else if a.len() == 0 {
        true
    } else if a[0] == b[0] {
        text_before(a.drop_first(), b.drop_first())
    } else {
        a[0] < b[0]
    }
}

/// The order of texts is transitive.
pub proof fn lemma_text_before_chains(a: Seq<char>, b: Seq<char>, c: Seq<char>)
    requires
        text_before(a, b),
        text_before(b, c),
    ensures
        text_before(a, c),
    decreases a.len(),
{
    if a.len() > 0 && a[0] == b[0] && b[0] == c[0] {
        lemma_text_before_chains(a.drop_first(), b.drop_first(), c.drop_first());
    }
}

/// Of two texts at most one comes before the other.
pub proof fn lemma_text_before_one_way(a: Seq<char>, b: Seq<char>)
    ensures
        !(text_before(a, b) && text_before(b, a)),
    decreases a.len(),
{
    if a.len() > 0 && b.len() > 0 && a[0] == b[0] {
        lemma_text_before_one_way(a.drop_first(), b.drop_first());
    }
}

/// The items of a sequence, each once, in the order in which they first occur.
pub open spec fn distinct<T>(items: Seq<T>) -> Seq<T>
    decreases items.len(),
{
    if items.len() == 0 {
        Seq::empty()
    } else {
        let before = distinct(items.drop_last());
        if before.contains(items.last()) {
            before
        } else {
            before.push(items.last())
        }
    }
}

/// The characters of `s`.
pub fn chars_of(s: &str) -> (r: Vec<char>)
    ensures
        r@ == s@,
{
    let mut out: Vec<char> = Vec::new();
    for c in it: s.chars()
        invariant
            out@ == it.seq().take(it.index()),
    {
        out.push(c);
    }
    out
}

/// The characters of `chars` from `from` up to `to`, as a string.
pub fn string_between(chars: &Vec<char>, from: usize, to: usize) -> (r: String)
    requires
        from <= to <= chars@.len(),
    ensures
        r@ == chars@.subrange(from as int, to as int),
{
    let mut out = String::new();
    let mut i: usize = from;
    while i < to
        invariant
            from <= i <= to <= chars@.len(),
            out@ == chars@.subrange(from as int, i as int),
        decreases to - i,
    {
        out.push(chars[i]);
        i = i + 1;
    }
    out
}

/// Whether `part` stands in `s` at position `i`.
pub fn stands_at(s: &Vec<char>, part: &Vec<char>, i: usize) -> (r: bool)
    ensures
        r == occurs_at(s@, part@, i as int),
{
    if part.len() > s.len() || i > s.len() - part.len() {
        return false;
    }
    let total: usize = s.len();
    let mut k: usize = 0;
    while k < part.len()
        invariant
            k <= part@.len(),
            i + part@.len() <= s@.len() == total,
            forall|j: int| 0 <= j < k ==> s@[i + j] == part@[j],
        decreases part@.len() - k,
    {
        if s[i + k] != part[k] {
            assert(s@.subrange(i as int, i + part@.len())[k as int] != part@[k as int]);
            return false;
        }
        k = k + 1;
    }
    assert(s@.subrange(i as int, i + part@.len()) =~= part@);
    true
}

/// The first position from `from` on at which `part` stands in `s`.
pub fn position_from(s: &Vec<char>, part: &Vec<char>, from: usize) -> (r: Option<usize>)
    ensures
        first_from(s@, part@, from as int) == match r {
            Some(i) => Some(i as int),
            None => None,
        },
        r matches Some(i) ==> occurs_at(s@, part@, i as int),
{
    if part.len() > s.len() {
        return None;
    }
    let last: usize = s.len() - part.len();
    let mut i: usize = from;
    while i <= last
        invariant
            last + part@.len() == s@.len(),
            from <= i,
            i <= last + 1 || i == from,
            first_from(s@, part@, from as int) == first_from(s@, part@, i as int),
        decreases last + 1 - i,
    {
        if stands_at(s, part, i) {
            return Some(i);
        }
        if i == usize::MAX {
            assert(first_from(s@, part@, i as int + 1) is None);
            return None;
        }
        i = i + 1;
    }
    None
}

proof fn lemma_first_from(s: Seq<char>, part: Seq<char>, i: int, k: int)
    requires
        0 <= i <= k,
        occurs_at(s, part, k),
    ensures
        first_from(s, part, i) is Some,
    decreases k - i,
{
    if !occurs_at(s, part, i) {
        lemma_first_from(s, part, i + 1, k);
    }
}

proof fn lemma_first_from_occurs(s: Seq<char>, part: Seq<char>, i: int)
    requires
        0 <= i,
    ensures
        first_from(s, part, i) matches Some(k) ==> i <= k && occurs_at(s, part, k),
    decreases s.len() + 1 - i,
{
    if i + part.len() <= s.len() && !occurs_at(s, part, i) {
        lemma_first_from_occurs(s, part, i + 1);
    }
}

/// A text holds a part exactly where the search for its first place succeeds.
pub proof fn lemma_contains_first(s: Seq<char>, part: Seq<char>)
    ensures
        contains_text(s, part) <==> first_from(s, part, 0) is Some,
{
    if contains_text(s, part) {
        let k = choose|k: int| occurs_at(s, part, k);
        lemma_first_from(s, part, 0, k);
    }
    lemma_first_from_occurs(s, part, 0);
}

/// Whether `part` stands somewhere in `s`.
pub fn has_text(s: &str, part: &str) -> (r: bool)
    ensures
        r == contains_text(s@, part@),
{
    let chars = chars_of(s);
    let wanted = chars_of(part);
    proof {
        lemma_contains_first(s@, part@);
    }
    position_from(&chars, &wanted, 0).is_some()
}

/// Whether `s` begins with `part`.
pub fn begins_with(s: &str, part: &str) -> (r: bool)
    ensures
        r == occurs_at(s@, part@, 0),
{
    let chars = chars_of(s);
    let wanted = chars_of(part);
    stands_at(&chars, &wanted, 0)
}

/// What follows `part` at the beginning of `s`; nothing where `s` does not begin with it.
pub fn after_prefix(s: &str, part: &str) -> (r: Option<String>)
    ensures
        opt_view(r) == if occurs_at(s@, part@, 0) {
            Some(s@.skip(part@.len() as int))
        } else {
            None
        },
{
    let chars = chars_of(s);
    let wanted = chars_of(part);
    if stands_at(&chars, &wanted, 0) {
        Some(string_between(&chars, wanted.len(), chars.len()))
    } else {
        None
    }
}

/// Whether one text comes before another.
pub fn precedes(a: &str, b: &str) -> (r: bool)
    ensures
        r == text_before(a@, b@),
{
    let x = chars_of(a);
    let y = chars_of(b);
    let mut i: usize = 0;
    assert(a@.skip(0) =~= a@ && b@.skip(0) =~= b@);
    while i < x.len() && i < y.len() && x[i] == y[i]
        invariant
            i <= x@.len(),
            i <= y@.len(),
            x@ == a@,
            y@ == b@,
            text_before(a@, b@) == text_before(a@.skip(i as int), b@.skip(i as int)),
        decreases x@.len() - i,
    {
        assert(a@.skip(i as int).drop_first() =~= a@.skip(i + 1));
        assert(b@.skip(i as int).drop_first() =~= b@.skip(i + 1));
        i = i + 1;
    }
    if i >= y.len() {
        false
    } else if i >= x.len() {
        true
    } else {
        x[i] < y[i]
    }
}

/// Whether a text is empty.
pub fn is_empty(s: &str) -> (r: bool)
    ensures
        r == (s@.len() == 0),
{
    chars_of(s).len() == 0
}

/// Whether two texts are the same.
pub fn same_text(a: &str, b: &str) -> (r: bool)
    ensures
        r == (a@ == b@),
{
    let x = chars_of(a);
    let y = chars_of(b);
    if x.len() != y.len() {
        return false;
    }
    let same = stands_at(&x, &y, 0);
    assert(x@.subrange(0, y@.len() as int) =~= x@);
    same
}

/// The two sides of the first `sep` in `s`.
pub fn split_at_first(s: &str, sep: &str) -> (r: Option<(String, String)>)
    ensures
        match r {
            Some(sides) => split_first(s@, sep@) == Some((sides.0@, sides.1@)),
            None => split_first(s@, sep@) is None,
        },
{
    let chars = chars_of(s);
    let wanted = chars_of(sep);
    let total: usize = chars.len();
    match position_from(&chars, &wanted, 0) {
        Some(i) => Some(
            (
                string_between(&chars, 0, i),
                string_between(&chars, i + wanted.len(), total),
            ),
        ),
        None => None,
    }
}

/// The two sides of the last `c` in `s`.
pub fn split_at_last(s: &str, c: char) -> (r: Option<(String, String)>)
    ensures
        match r {
            Some(sides) => split_last(s@, c) == Some((sides.0@, sides.1@)),
            None => split_last(s@, c) is None,
        },
{
    let chars = chars_of(s);
    let mut end: usize = chars.len();
    while end > 0
        invariant
            end <= chars@.len(),
            chars@ == s@,
            last_before(s@, c, s@.len() as int) == last_before(s@, c, end as int),
        decreases end,
    {
        if chars[end - 1] == c {
            return Some(
                (string_between(&chars, 0, end - 1), string_between(&chars, end, chars.len())),
            );
        }
        end = end - 1;
    }
    None
}

/// The ASCII lower-case form of a character.
pub fn lower_char(c: char) -> (r: char)
    ensures
        r == lower(c),
{
    if 'A' <= c && c <= 'Z' {
        (c as u8 + 32) as char
    } else {
        c
    }
}

/// `s` with its ASCII letters in lower case.
pub fn lower_text(s: &str) -> (r: String)
    ensures
        r@ == lowered(s@),
{
    let mut out = String::new();
    for c in it: s.chars()
        invariant
            out@ == lowered(it.seq().take(it.index())),
    {
        out.push(lower_char(c));
        assert(out@ =~= lowered(it.seq().take(it.index() + 1)));
    }
    out
}

/// Whether two texts are the same but for the case of ASCII letters.
pub fn same_ignoring_case(a: &str, b: &str) -> (r: bool)
    ensures
        r == (lowered(a@) == lowered(b@)),
{
    let x = lower_text(a);
    let y = lower_text(b);
    same_text(x.as_str(), y.as_str())
}

/// Whether every character of `s` is an ASCII decimal digit.
pub fn only_digits(s: &str) -> (r: bool)
    ensures
        r == all_digits(s@),
{
    let chars = chars_of(s);
    let mut i: usize = 0;
    while i < chars.len()
        invariant
            i <= chars@.len(),
            chars@ == s@,
            forall|j: int| 0 <= j < i ==> is_digit(#[trigger] s@[j]),
        decreases chars@.len() - i,
    {
        let c = chars[i];
        if !('0' <= c && c <= '9') {
            assert(!is_digit(s@[i as int]));
            return false;
        }
        i = i + 1;
    }
    true
}

/// Whether a character has Unicode's `White_Space` property.
pub fn white(c: char) -> (r: bool)
    ensures
        r == is_white(c),
{
    ('\u{9}' <= c && c <= '\u{d}') || c == ' ' || c == '\u{85}' || c == '\u{a0}' || c == '\u{1680}'
        || ('\u{2000}' <= c && c <= '\u{200a}') || c == '\u{2028}' || c == '\u{2029}' || c
        == '\u{202f}' || c == '\u{205f}' || c == '\u{3000}'
}

/// `s` parted into the white space at its beginning and the rest.
pub fn split_lead(s: &str) -> (r: (String, String))
    ensures
        r.0@ == s@.take(lead_len(s@) as int),
        r.1@ == trimmed_start(s@),
{
    let chars = chars_of(s);
    let mut i: usize = 0;
    assert(s@.skip(0) =~= s@);
    while i < chars.len() && white(chars[i])
        invariant
            i <= chars@.len(),
            chars@ == s@,
            lead_len(s@) == i + lead_len(s@.skip(i as int)),
        decreases chars@.len() - i,
    {
        assert(s@.skip(i as int).drop_first() =~= s@.skip(i + 1));
        i = i + 1;
    }
    assert(lead_len(s@.skip(i as int)) == 0);
    (string_between(&chars, 0, i), string_between(&chars, i, chars.len()))
}

/// `s` without the white space at either end.
pub fn trim_text(s: &str) -> (r: String)
    ensures
        r@ == trimmed(s@),
{
    let (_, rest) = split_lead(s);
    let chars = chars_of(rest.as_str());
    let mut end: usize = chars.len();
    assert(chars@.take(end as int) =~= chars@);
    while end > 0 && white(chars[end - 1])
        invariant
            end <= chars@.len(),
            trimmed_end(chars@) == trimmed_end(chars@.take(end as int)),
        decreases end,
    {
        assert(chars@.take(end as int).drop_last() =~= chars@.take(end - 1));
        end = end - 1;
    }
    string_between(&chars, 0, end)
}

/// The lines of `s`.
pub fn split_lines(s: &str) -> (r: Vec<String>)
    ensures
        each_view(r@) == lines_of(s@),
{
    let chars = chars_of(s);
    let mut out: Vec<String> = Vec::new();
    let mut start: usize = 0;
    assert(each_view(out@) =~= Seq::<Seq<char>>::empty());
    while start < chars.len()
        invariant
            start <= chars@.len(),
            chars@ == s@,
            lines_of(s@) =~= each_view(out@) + lines_from(s@, start as int),
        decreases chars@.len() - start,
    {
        let mut end: usize = start;
        while end < chars.len() && chars[end] != '\n'
            invariant
                start <= end <= chars@.len(),
                chars@ == s@,
                line_end(s@, start as int) == line_end(s@, end as int),
            decreases chars@.len() - end,
        {
            end = end + 1;
        }
        let ghost before = out@;
        if end >= chars.len() {
            let line = string_between(&chars, start, chars.len());
            out.push(line);
            assert(line@ =~= s@.skip(start as int));
            assert(each_view(out@) =~= each_view(before).push(s@.skip(start as int)));
            assert(lines_of(s@) =~= each_view(out@));
            return out;
        }
        let stop: usize = if end > start && chars[end - 1] == '\r' {
            end - 1
        } else {
            end
        };
        let line = string_between(&chars, start, stop);
        out.push(line);
        assert(line@ =~= without_cr(s@.subrange(start as int, end as int)));
        assert(each_view(out@) =~= each_view(before).push(
            without_cr(s@.subrange(start as int, end as int)),
        ));
        start = end + 1;
    }
    out
}

/// A copy of an optional text.
pub fn copied(s: &Option<String>) -> (r: Option<String>)
    ensures
        r == *s,
{
    match s {
        Some(t) => Some(t.clone()),
        None => None,
    }
}

/// A copy of a list of texts.
pub fn copied_list(items: &Vec<String>) -> (r: Vec<String>)
    ensures
        r@ == items@,
{
    let mut out: Vec<String> = Vec::new();
    let mut i: usize = 0;
    while i < items.len()
        invariant
            i <= items@.len(),
            out@ == items@.take(i as int),
        decreases items@.len() - i,
    {
        out.push(items[i].clone());
        i = i + 1;
    }
    assert(items@.take(i as int) =~= items@);
    out
}

/// Two texts, one after the other.
pub fn joined(a: &str, b: &str) -> (r: String)
    ensures
        r@ == a@ + b@,
{
    let mut out = a.to_owned();
    out.append(b);
    out
}

/// A number in decimal.
pub fn decimal_text(n: u64) -> (r: String)
    ensures
        r@ == decimal(n as nat),
    decreases n,
{
    let digit: u8 = (n % 10) as u8;
    let c = (48 + digit) as char;
    if n < 10 {
        let mut out = String::new();
        out.push(c);
        assert(out@ =~= decimal(n as nat));
        out
    } else {
        let mut out = decimal_text(n / 10);
        out.push(c);
        out
    }
}

/// Whether a text is among some texts.
pub fn is_among(items: &Vec<String>, s: &str) -> (r: bool)
    ensures
        r == each_view(items@).contains(s@),
{
    let mut i: usize = 0;
    while i < items.len()
        invariant
            i <= items@.len(),
            forall|j: int| 0 <= j < i ==> #[trigger] each_view(items@)[j] != s@,
        decreases items@.len() - i,
    {
        assert(each_view(items@)[i as int] == items@[i as int]@);
        if same_text(items[i].as_str(), s) {
            return true;
        }
        i = i + 1;
    }
    false
}

/// The texts of a list, each once, in the order in which they first occur.
pub fn unique_texts(items: Vec<String>) -> (r: Vec<String>)
    ensures
        each_view(r@) == distinct(each_view(items@)),
{
    let ghost all = each_view(items@);
    let mut out: Vec<String> = Vec::new();
    let mut i: usize = 0;
    assert(each_view(out@) =~= distinct(all.take(0)));
    while i < items.len()
        invariant
            i <= items@.len(),
            all == each_view(items@),
            each_view(out@) == distinct(all.take(i as int)),
        decreases items@.len() - i,
    {
        let ghost before = out@;
        assert(all.take(i + 1).drop_last() =~= all.take(i as int));
        assert(all.take(i + 1).last() == items@[i as int]@);
        if !is_among(&out, items[i].as_str()) {
            out.push(items[i].clone());
            assert(each_view(out@) =~= each_view(before).push(items@[i as int]@));
        }
        i = i + 1;
    }
    assert(all.take(i as int) =~= all);
    out
}

/// Listing the items of a sequence once leaves out none of them, adds none, and repeats none.
pub proof fn law_distinct<T>(items: Seq<T>)
    ensures
        distinct(items).no_duplicates(),
        forall|t: T| #[trigger] distinct(items).contains(t) <==> items.contains(t),
    decreases items.len(),
{
    if items.len() > 0 {
        let shorter = items.drop_last();
        law_distinct(shorter);
        let before = distinct(shorter);
        assert forall|t: T| #[trigger] distinct(items).contains(t) <==> items.contains(t) by {
            assert(items.contains(t) <==> shorter.contains(t) || t == items.last()) by {
                if items.contains(t) {
                    let k = choose|k: int| 0 <= k < items.len() && items[k] == t;
                    if k < shorter.len() {
                        assert(shorter[k] == t);
                    }
                }
                if shorter.contains(t) {
                    let k = choose|k: int| 0 <= k < shorter.len() && shorter[k] == t;
                    assert(items[k] == t);
                }
                assert(items[items.len() - 1] == items.last());
            }
            if !before.contains(items.last()) {
                let after = before.push(items.last());
                assert(after.contains(t) <==> before.contains(t) || t == items.last()) by {
                    if before.contains(t) {
                        let k = choose|k: int| 0 <= k < before.len() && before[k] == t;
                        assert(after[k] == t);
                    }
                    assert(after[before.len() as int] == items.last());
                }
            }
        }
    }
}

/// Of two items that are listed once, the one that occurs first comes first: it stands in the sequence
/// before any place of the other.
pub proof fn law_distinct_keeps_order<T>(items: Seq<T>, i: int, j: int)
    requires
        0 <= i < j < distinct(items).len(),
    ensures
        exists|k: int|
            0 <= k < items.len() && items[k] == distinct(items)[i] && !(#[trigger] items.take(
                k + 1,
            )).contains(distinct(items)[j]),
    decreases items.len(),
{
    let shorter = items.drop_last();
    let before = distinct(shorter);
    law_distinct(shorter);
    if j < before.len() {
        law_distinct_keeps_order(shorter, i, j);
        let k = choose|k: int|
            0 <= k < shorter.len() && shorter[k] == before[i] && !(#[trigger] shorter.take(
                k + 1,
            )).contains(before[j]);
        assert(items.take(k + 1) =~= shorter.take(k + 1));
    } else {
        assert(before.contains(before[i]));
        let k = choose|k: int| 0 <= k < shorter.len() && shorter[k] == before[i];
        assert(items[k] == distinct(items)[i]);
        assert(!shorter.contains(items.last()));
        assert(!items.take(k + 1).contains(items.last())) by {
            if items.take(k + 1).contains(items.last()) {
                let head = items.take(k + 1);
                let n = choose|n: int| 0 <= n < head.len() && head[n] == items.last();
                assert(shorter[n] == items.last());
            }
        }
    }
}

} // verus!
