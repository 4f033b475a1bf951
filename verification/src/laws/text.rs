//! Laws of texts, numbers and bytes in hexadecimal.
use vstd::prelude::*;

use crate::{collect, hex, text};

verus! {

/// A text with another in its middle holds it, and whatever holds a text has it in its middle.
pub proof fn law_holding_a_text(s: Seq<char>, part: Seq<char>)
    ensures
        text::contains_text(s, part) <==> exists|a: Seq<char>, b: Seq<char>|
            s == #[trigger] (a + part + b),
{
    if text::contains_text(s, part) {
        let i = choose|i: int| text::occurs_at(s, part, i);
        assert(s =~= s.take(i) + part + s.skip(i + part.len()));
    }
    if exists|a: Seq<char>, b: Seq<char>| s == #[trigger] (a + part + b) {
        let (a, b) = choose|a: Seq<char>, b: Seq<char>| s == #[trigger] (a + part + b);
        assert(s.subrange(a.len() as int, (a.len() + part.len()) as int) =~= part);
        assert(text::occurs_at(s, part, a.len() as int));
    }
}

proof fn lemma_first_from(s: Seq<char>, part: Seq<char>, i: int)
    requires
        0 <= i,
    ensures
        match text::first_from(s, part, i) {
            Some(k) => i <= k && k + part.len() <= s.len() && s.subrange(k, k + part.len()) == part
                && forall|j: int| i <= j < k ==> !text::occurs_at(s, part, j),
            None => forall|j: int| i <= j ==> !text::occurs_at(s, part, j),
        },
    decreases s.len() + 1 - i,
{
    if i + part.len() <= s.len() && !text::occurs_at(s, part, i) {
        lemma_first_from(s, part, i + 1);
    }
}

/// Splitting at a separator takes nothing away and splits at the first one; it fails exactly where the
/// separator does not occur.
pub proof fn law_split_at_first(s: Seq<char>, sep: Seq<char>)
    ensures
        match text::split_first(s, sep) {
            Some((head, tail)) => s == head + sep + tail && forall|i: int|
                0 <= i < head.len() ==> (#[trigger] s.skip(i)).take(sep.len() as int) != sep,
            None => !text::contains_text(s, sep),
        },
{
    lemma_first_from(s, sep, 0);
    if let Some((head, tail)) = text::split_first(s, sep) {
        assert(s =~= head + sep + tail);
        assert forall|i: int| 0 <= i < head.len() implies (#[trigger] s.skip(i)).take(
            sep.len() as int,
        ) != sep by {
            assert(!text::occurs_at(s, sep, i));
            assert(s.skip(i).take(sep.len() as int) =~= s.subrange(i, i + sep.len()));
        }
    }
}

/// A text is split at its first separator: in front of it stands what holds no separator, even
/// together with the beginning of the separator itself.
pub proof fn lemma_split_of_join(head: Seq<char>, sep: Seq<char>, tail: Seq<char>)
    requires
        forall|i: int|
            0 <= i < head.len() ==> (#[trigger] (head + sep + tail).skip(i)).take(
                sep.len() as int,
            ) != sep,
    ensures
        text::split_first(head + sep + tail, sep) == Some((head, tail)),
{
    let s = head + sep + tail;
    lemma_first_from(s, sep, 0);
    assert(s.subrange(head.len() as int, (head.len() + sep.len()) as int) =~= sep);
    assert(text::occurs_at(s, sep, head.len() as int));
    let k = text::first_from(s, sep, 0)->Some_0;
    if k < head.len() {
        assert(s.skip(k).take(sep.len() as int) =~= s.subrange(k, k + sep.len()));
    }
    assert(k == head.len());
    assert(s.take(k) =~= head);
    assert(s.skip(k + sep.len()) =~= tail);
}

proof fn lemma_last_before(s: Seq<char>, c: char, end: int)
    requires
        end <= s.len(),
    ensures
        match text::last_before(s, c, end) {
            Some(k) => 0 <= k < end && s[k] == c && forall|j: int| k < j < end ==> s[j] != c,
            None => forall|j: int| 0 <= j < end ==> s[j] != c,
        },
    decreases end,
{
    if end > 0 && s[end - 1] != c {
        lemma_last_before(s, c, end - 1);
    }
}

/// Splitting at the last of a character takes nothing away and leaves none of it behind the split; it
/// fails exactly where the character does not occur.
pub proof fn law_split_at_last(s: Seq<char>, c: char)
    ensures
        match text::split_last(s, c) {
            Some((head, tail)) => s == head + seq![c] + tail && !tail.contains(c),
            None => !s.contains(c),
        },
{
    lemma_last_before(s, c, s.len() as int);
    if let Some((head, tail)) = text::split_last(s, c) {
        assert(s =~= head + seq![c] + tail);
    }
}

/// What is joined by a character that the second part does not hold is split there again.
pub proof fn law_last_split_undoes_join(head: Seq<char>, c: char, tail: Seq<char>)
    requires
        !tail.contains(c),
    ensures
        text::split_last(head + seq![c] + tail, c) == Some((head, tail)),
{
    let s = head + seq![c] + tail;
    lemma_last_before(s, c, s.len() as int);
    let k = text::last_before(s, c, s.len() as int)->Some_0;
    assert(s[head.len() as int] == c);
    if k > head.len() {
        assert(tail[k - head.len() - 1] == c);
    }
    assert(s.take(k) =~= head);
    assert(s.skip(k + 1) =~= tail);
}

/// The lower-case form of the letters of the English alphabet; every other character is its own.
pub proof fn law_lower_case(c: char)
    ensures
        match "ABCDEFGHIJKLMNOPQRSTUVWXYZ"@.contains(c) {
            true => exists|i: int|
                0 <= i < 26 && #[trigger] "ABCDEFGHIJKLMNOPQRSTUVWXYZ"@[i] == c
                    && "abcdefghijklmnopqrstuvwxyz"@[i] == text::lower(c),
            false => text::lower(c) == c,
        },
{
    reveal_strlit("ABCDEFGHIJKLMNOPQRSTUVWXYZ");
    reveal_strlit("abcdefghijklmnopqrstuvwxyz");
    let upper = "ABCDEFGHIJKLMNOPQRSTUVWXYZ"@;
    if 'A' <= c && c <= 'Z' {
        assert(upper[c as int - 65] == c);
        assert(upper.contains(c));
        assert("abcdefghijklmnopqrstuvwxyz"@[c as int - 65] == text::lower(c));
    }
}

/// Lower case works on each character by itself.
pub proof fn law_lower_case_of_joined(a: Seq<char>, b: Seq<char>)
    ensures
        text::lowered(a + b) == text::lowered(a) + text::lowered(b),
        forall|i: int| 0 <= i < a.len() ==> #[trigger] text::lowered(a)[i] == text::lower(a[i]),
        text::lowered(a).len() == a.len(),
{
    assert(text::lowered(a + b) =~= text::lowered(a) + text::lowered(b));
}

/// The white-space characters, one by one.
pub proof fn law_white_space(c: char)
    ensures
        text::is_white(c) <==> seq![
            '\u{9}', '\u{a}', '\u{b}', '\u{c}', '\u{d}', ' ', '\u{85}', '\u{a0}', '\u{1680}',
            '\u{2000}', '\u{2001}', '\u{2002}', '\u{2003}', '\u{2004}', '\u{2005}', '\u{2006}',
            '\u{2007}', '\u{2008}', '\u{2009}', '\u{200a}', '\u{2028}', '\u{2029}', '\u{202f}',
            '\u{205f}', '\u{3000}',
        ].contains(c),
{
    let all = seq![
        '\u{9}', '\u{a}', '\u{b}', '\u{c}', '\u{d}', ' ', '\u{85}', '\u{a0}', '\u{1680}',
        '\u{2000}', '\u{2001}', '\u{2002}', '\u{2003}', '\u{2004}', '\u{2005}', '\u{2006}',
        '\u{2007}', '\u{2008}', '\u{2009}', '\u{200a}', '\u{2028}', '\u{2029}', '\u{202f}',
        '\u{205f}', '\u{3000}',
    ];
    if text::is_white(c) {
        let i: int = if c <= '\u{d}' {
            c as int - 9
        } else if c == ' ' {
            5
        } else if c == '\u{85}' {
            6
        } else if c == '\u{a0}' {
            7
        } else if c == '\u{1680}' {
            8
        } else if c <= '\u{200a}' {
            9 + c as int - 0x2000
        } else if c == '\u{2028}' {
            20
        } else if c == '\u{2029}' {
            21
        } else if c == '\u{202f}' {
            22
        } else if c == '\u{205f}' {
            23
        } else {
            24
        };
        assert(all[i] == c);
    }
}

/// Every character of a text is white space.
pub open spec fn all_white(s: Seq<char>) -> bool {
    forall|i: int| 0 <= i < s.len() ==> text::is_white(#[trigger] s[i])
}

/// A text that neither begins nor ends with white space.
pub open spec fn is_trim(s: Seq<char>) -> bool {
    s.len() > 0 ==> !text::is_white(s[0]) && !text::is_white(s.last())
}

proof fn lemma_lead(s: Seq<char>)
    ensures
        text::lead_len(s) <= s.len(),
        all_white(s.take(text::lead_len(s) as int)),
        text::lead_len(s) < s.len() ==> !text::is_white(s[text::lead_len(s) as int]),
    decreases s.len(),
{
    if s.len() > 0 && text::is_white(s[0]) {
        let rest = s.drop_first();
        lemma_lead(rest);
        let n = text::lead_len(s) as int;
        assert forall|i: int| 0 <= i < n implies text::is_white(#[trigger] s.take(n)[i]) by {
            if i > 0 {
                assert(rest.take(n - 1)[i - 1] == s[i]);
            }
        }
        if n < s.len() {
            assert(rest[n - 1] == s[n]);
        }
    }
}

/// The white space at the beginning of a text is all that `lead_len` counts, and what is left does not
/// begin with any.
pub proof fn law_trimmed_start(s: Seq<char>)
    ensures
        s == s.take(text::lead_len(s) as int) + text::trimmed_start(s),
        all_white(s.take(text::lead_len(s) as int)),
        text::trimmed_start(s).len() > 0 ==> !text::is_white(text::trimmed_start(s)[0]),
        text::lead_len(s) + text::trimmed_start(s).len() == s.len(),
{
    lemma_lead(s);
    assert(s =~= s.take(text::lead_len(s) as int) + text::trimmed_start(s));
}

/// White space in front of a text that does not begin with any is what trimming takes off.
pub proof fn law_trimmed_start_of_joined(lead: Seq<char>, s: Seq<char>)
    requires
        all_white(lead),
        s.len() > 0 ==> !text::is_white(s[0]),
    ensures
        text::lead_len(lead + s) == lead.len(),
        text::trimmed_start(lead + s) == s,
    decreases lead.len(),
{
    if lead.len() > 0 {
        assert(text::is_white(lead[0]));
        assert((lead + s).drop_first() =~= lead.drop_first() + s);
        assert forall|i: int| 0 <= i < lead.drop_first().len() implies text::is_white(
            #[trigger] lead.drop_first()[i],
        ) by {
            assert(text::is_white(lead[i + 1]));
        }
        law_trimmed_start_of_joined(lead.drop_first(), s);
    } else {
        assert(lead + s =~= s);
    }
    assert((lead + s).skip(lead.len() as int) =~= s);
}

proof fn lemma_trimmed_end(s: Seq<char>)
    ensures
        exists|tail: Seq<char>| #![auto] all_white(tail) && s == text::trimmed_end(s) + tail,
        text::trimmed_end(s).len() > 0 ==> !text::is_white(text::trimmed_end(s).last()),
    decreases s.len(),
{
    let t = text::trimmed_end(s);
    if s.len() > 0 && text::is_white(s.last()) {
        let rest = s.drop_last();
        lemma_trimmed_end(rest);
        let tail = choose|tail: Seq<char>|
            #![auto]
            all_white(tail) && rest == text::trimmed_end(rest) + tail;
        let longer = tail.push(s.last());
        assert(t == text::trimmed_end(rest));
        assert(s =~= rest.push(s.last()));
        assert(s =~= t + longer);
        assert(all_white(longer));
    } else {
        assert(s =~= t + Seq::<char>::empty());
        assert(all_white(Seq::<char>::empty()));
    }
}

/// Trimming takes white space from both ends, all of it and nothing else.
pub proof fn law_trimmed(s: Seq<char>)
    ensures
        is_trim(text::trimmed(s)),
        exists|a: Seq<char>, b: Seq<char>|
            all_white(a) && all_white(b) && s == #[trigger] (a + text::trimmed(s) + b),
{
    law_trimmed_start(s);
    let t = text::trimmed_start(s);
    lemma_trimmed_end(t);
    let b = choose|b: Seq<char>| #![auto] all_white(b) && t == text::trimmed_end(t) + b;
    let a = s.take(text::lead_len(s) as int);
    assert(s =~= a + text::trimmed(s) + b);
    if text::trimmed(s).len() > 0 {
        assert(text::trimmed(s)[0] == t[0]);
    }
}

/// What neither begins nor ends with white space is what trimming leaves of it, whatever white space
/// stands around it.
pub proof fn law_trimmed_of_joined(a: Seq<char>, s: Seq<char>, b: Seq<char>)
    requires
        all_white(a),
        all_white(b),
        is_trim(s),
    ensures
        text::trimmed(a + s + b) == s,
{
    if s.len() == 0 {
        assert forall|i: int| 0 <= i < (a + b).len() implies text::is_white(
            #[trigger] (a + b)[i],
        ) by {
            if i < a.len() {
                assert(text::is_white(a[i]));
            } else {
                assert(text::is_white(b[i - a.len()]));
            }
        }
        law_trimmed_start_of_joined(a + b, s);
        assert(a + s + b =~= (a + b) + s);
    } else {
        assert(a + s + b =~= a + (s + b));
        law_trimmed_start_of_joined(a, s + b);
        lemma_trimmed_end_of_joined(s, b);
    }
}

proof fn lemma_trimmed_end_of_joined(s: Seq<char>, b: Seq<char>)
    requires
        all_white(b),
        s.len() > 0,
        !text::is_white(s.last()),
    ensures
        text::trimmed_end(s + b) == s,
    decreases b.len(),
{
    if b.len() > 0 {
        assert(text::is_white(b[b.len() - 1]));
        assert((s + b).drop_last() =~= s + b.drop_last());
        assert forall|i: int| 0 <= i < b.drop_last().len() implies text::is_white(
            #[trigger] b.drop_last()[i],
        ) by {
            assert(text::is_white(b[i]));
        }
        lemma_trimmed_end_of_joined(s, b.drop_last());
    } else {
        assert(s + b =~= s);
    }
}

proof fn lemma_line_end_of(s: Seq<char>, i: int, n: int)
    requires
        0 <= i <= n <= s.len(),
        forall|j: int| i <= j < n ==> s[j] != '\n',
        n < s.len() ==> s[n] == '\n',
    ensures
        text::line_end(s, i) == n,
    decreases n - i,
{
    if i < n {
        lemma_line_end_of(s, i + 1, n);
    }
}

proof fn lemma_line_end_shifts(a: Seq<char>, s: Seq<char>, i: int)
    requires
        0 <= i,
    ensures
        text::line_end(a + s, a.len() + i) == a.len() + text::line_end(s, i),
    decreases s.len() - i,
{
    if i < s.len() && s[i] != '\n' {
        lemma_line_end_shifts(a, s, i + 1);
    }
}

proof fn lemma_line_end_bounds(s: Seq<char>, i: int)
    requires
        0 <= i <= s.len(),
    ensures
        i <= text::line_end(s, i) <= s.len(),
    decreases s.len() - i,
{
    if i < s.len() && s[i] != '\n' {
        lemma_line_end_bounds(s, i + 1);
    }
}

proof fn lemma_lines_shift(a: Seq<char>, s: Seq<char>, i: int)
    requires
        0 <= i,
    ensures
        text::lines_from(a + s, a.len() + i) == text::lines_from(s, i),
    decreases s.len() - i,
{
    if i < s.len() {
        lemma_line_end_shifts(a, s, i);
        lemma_line_end_bounds(s, i);
        let end = text::line_end(s, i);
        if end >= s.len() {
            assert((a + s).skip(a.len() + i) =~= s.skip(i));
        } else {
            assert((a + s).subrange(a.len() + i, a.len() + end) =~= s.subrange(i, end));
            lemma_lines_shift(a, s, end + 1);
        }
    }
}

/// A text without line feeds is one line, or none where it is empty; a line feed ends a line, together
/// with a carriage return in front of it, and the rest is read on its own.
pub proof fn law_lines(line: Seq<char>, rest: Seq<char>)
    requires
        !line.contains('\n'),
    ensures
        text::lines_of(Seq::empty()) == Seq::<Seq<char>>::empty(),
        line.len() > 0 ==> text::lines_of(line) == seq![line],
        line.len() == 0 || line.last() != '\r' ==> text::lines_of(line + seq!['\n'] + rest)
            == seq![line] + text::lines_of(rest),
        text::lines_of(line + seq!['\r', '\n'] + rest) == seq![line] + text::lines_of(rest),
{
    assert forall|j: int| 0 <= j < line.len() implies line[j] != '\n' by {
        assert(line.contains(line[j]));
    }
    lemma_line_end_of(line, 0, line.len() as int);
    assert(line.skip(0) =~= line);
    let a = line + seq!['\n'];
    let s = a + rest;
    lemma_line_end_of(s, 0, line.len() as int);
    assert(s.subrange(0, line.len() as int) =~= line);
    lemma_lines_shift(a, rest, 0);
    let b = line + seq!['\r', '\n'];
    let t = b + rest;
    assert(line + seq!['\r', '\n'] + rest =~= t);
    lemma_line_end_of(t, 0, line.len() as int + 1);
    assert(t.subrange(0, line.len() as int + 1) =~= line.push('\r'));
    assert(line.push('\r').drop_last() =~= line);
    lemma_lines_shift(b, rest, 0);
}

/// A number in decimal is read back as itself, is made of digits, and has no zero in front.
pub proof fn law_decimal(n: nat)
    ensures
        collect::number_of(text::decimal(n)) == n,
        text::all_digits(text::decimal(n)),
        text::decimal(n).len() > 0,
        n > 0 ==> text::decimal(n)[0] != '0',
        n == 0 ==> text::decimal(n) == seq!['0'],
    decreases n,
{
    let c = text::digit_char(n % 10);
    if n < 10 {
        assert(text::decimal(n).drop_last() =~= Seq::<char>::empty());
        assert(collect::number_of(Seq::<char>::empty()) == 0);
        assert(text::decimal(n).last() as nat == 48 + n);
    } else {
        law_decimal(n / 10);
        assert(text::decimal(n).drop_last() =~= text::decimal(n / 10));
        assert(text::decimal(n).last() as nat == 48 + n % 10);
        assert forall|i: int| 0 <= i < text::decimal(n).len() implies text::is_digit(
            #[trigger] text::decimal(n)[i],
        ) by {
            if i < text::decimal(n / 10).len() {
                assert(text::is_digit(text::decimal(n / 10)[i]));
            }
        }
    }
}

/// The digits are the ten of the decimal system, and a text of them is worth ten times what it is
/// without its last one, and that one.
pub proof fn law_digits(s: Seq<char>, c: char)
    ensures
        text::is_digit(c) <==> "0123456789"@.contains(c),
        text::all_digits(Seq::empty()),
        text::all_digits(s.push(c)) <==> text::all_digits(s) && text::is_digit(c),
        collect::number_of(Seq::empty()) == 0,
        forall|d: int|
            0 <= d < 10 ==> #[trigger] collect::number_of(s.push("0123456789"@[d])) == 10
                * collect::number_of(s) + d,
{
    reveal_strlit("0123456789");
    if text::is_digit(c) {
        assert("0123456789"@[c as int - 48] == c);
    }
    if text::all_digits(s.push(c)) {
        assert(text::is_digit(s.push(c)[s.len() as int]));
        assert forall|i: int| 0 <= i < s.len() implies text::is_digit(#[trigger] s[i]) by {
            assert(text::is_digit(s.push(c)[i]));
        }
    }
    assert forall|d: int| 0 <= d < 10 implies #[trigger] collect::number_of(
        s.push("0123456789"@[d]),
    ) == 10 * collect::number_of(s) + d by {
        let t = s.push("0123456789"@[d]);
        assert(t.drop_last() =~= s);
        assert("0123456789"@[d] as int == 48 + d);
    }
}

/// Texts are in order: none comes before itself, of two different ones exactly one comes before the
/// other, and the order is transitive.
pub proof fn law_order_of_texts(a: Seq<char>, b: Seq<char>, c: Seq<char>)
    ensures
        !text::text_before(a, a),
        a != b ==> text::text_before(a, b) != text::text_before(b, a),
        text::text_before(a, b) && text::text_before(b, c) ==> text::text_before(a, c),
{
    text::lemma_text_before_one_way(a, a);
    text::lemma_text_before_one_way(a, b);
    if a != b {
        lemma_order_is_total(a, b);
    }
    if text::text_before(a, b) && text::text_before(b, c) {
        text::lemma_text_before_chains(a, b, c);
    }
}

proof fn lemma_order_is_total(a: Seq<char>, b: Seq<char>)
    requires
        a != b,
    ensures
        text::text_before(a, b) || text::text_before(b, a),
    decreases a.len(),
{
    if a.len() > 0 && b.len() > 0 && a[0] == b[0] {
        if a.drop_first() == b.drop_first() {
            assert(a =~= seq![a[0]] + a.drop_first());
            assert(b =~= seq![b[0]] + b.drop_first());
        }
        lemma_order_is_total(a.drop_first(), b.drop_first());
    } else if a.len() == 0 && b.len() == 0 {
        assert(a =~= b);
    }
}

/// The first difference decides the order of two texts, and a text comes before what continues it.
pub proof fn law_first_difference_decides(
    same: Seq<char>,
    x: char,
    y: char,
    a: Seq<char>,
    b: Seq<char>,
)
    ensures
        text::text_before(same, same + seq![x] + a),
        x < y ==> text::text_before(same + seq![x] + a, same + seq![y] + b),
    decreases same.len(),
{
    let s = same + seq![x] + a;
    let t = same + seq![y] + b;
    if same.len() > 0 {
        let rest = same.drop_first();
        law_first_difference_decides(rest, x, y, a, b);
        assert(s.drop_first() =~= rest + seq![x] + a);
        assert(t.drop_first() =~= rest + seq![y] + b);
        assert(s[0] == same[0] && t[0] == same[0]);
    } else {
        assert(s[0] == x && t[0] == y);
    }
}

/// A byte is written as two digits, its high half first.
pub proof fn law_hexadecimal(bytes: Seq<u8>, k: int)
    requires
        0 <= k < bytes.len(),
    ensures
        hex::hex_of(bytes, false).len() == 2 * bytes.len(),
        hex::hex_of(bytes, true).len() == 2 * bytes.len(),
        hex::hex_of(bytes, false)[2 * k] == "0123456789abcdef"@[bytes[k] as int / 16],
        hex::hex_of(bytes, false)[2 * k + 1] == "0123456789abcdef"@[bytes[k] as int % 16],
        hex::hex_of(bytes, true)[2 * k] == "0123456789ABCDEF"@[bytes[k] as int / 16],
        hex::hex_of(bytes, true)[2 * k + 1] == "0123456789ABCDEF"@[bytes[k] as int % 16],
{
    reveal_strlit("0123456789abcdef");
    reveal_strlit("0123456789ABCDEF");
    assert((2 * k) / 2 == k && (2 * k + 1) / 2 == k && (2 * k) % 2 == 0 && (2 * k + 1) % 2 == 1);
    let b = bytes[k] as int;
    assert(0 <= b / 16 < 16 && 0 <= b % 16 < 16);
}

} // verus!
