//! Laws of the on-chain check: what is sent, and what the answer means.
use vstd::prelude::*;

use crate::onchain::RpcReply;
use crate::{hex, json, onchain, report, text};

verus! {

/// What the escape sequence at the beginning of a text stands for, and what follows it.
pub open spec fn read_escape(t: Seq<char>) -> Option<(char, Seq<char>)> {
    if t.len() < 2 || t[0] != '\\' {
        None
    } else if t[1] == '"' || t[1] == '\\' {
        Some((t[1], t.skip(2)))
    } else if t[1] == 'b' {
        Some(('\u{8}', t.skip(2)))
    } else if t[1] == 't' {
        Some(('\u{9}', t.skip(2)))
    } else if t[1] == 'n' {
        Some(('\u{a}', t.skip(2)))
    } else if t[1] == 'f' {
        Some(('\u{c}', t.skip(2)))
    } else if t[1] == 'r' {
        Some(('\u{d}', t.skip(2)))
    } else if t[1] == 'u' && t.len() >= 6 {
        Some(
            (
                (4096 * digit_value(t[2]) + 256 * digit_value(t[3]) + 16 * digit_value(t[4])
                    + digit_value(t[5])) as char,
                t.skip(6),
            ),
        )
    } else {
        None
    }
}

/// What a hexadecimal digit is worth.
pub open spec fn digit_value(c: char) -> int {
    "0123456789abcdef"@.index_of(c)
}

/// The characters of a JSON string up to the quotation mark that closes it, and what follows.
pub open spec fn read_chars(t: Seq<char>) -> Option<(Seq<char>, Seq<char>)>
    decreases t.len(),
{
    if t.len() == 0 {
        None
    } else if t[0] == '"' {
        Some((Seq::empty(), t.drop_first()))
    } else if t[0] == '\\' {
        match read_escape(t) {
            Some((c, rest)) => match read_chars(rest) {
                Some((s, after)) => Some((seq![c] + s, after)),
                None => None,
            },
            None => None,
        }
    } else {
        match read_chars(t.drop_first()) {
            Some((s, after)) => Some((seq![t[0]] + s, after)),
            None => None,
        }
    }
}

/// The JSON string at the beginning of a text, and what follows it.
pub open spec fn read_string(t: Seq<char>) -> Option<(Seq<char>, Seq<char>)> {
    if t.len() > 0 && t[0] == '"' {
        read_chars(t.drop_first())
    } else {
        None
    }
}

/// A member of a JSON object at the beginning of a text: its key, its value, which is a string, and
/// what follows.
pub open spec fn read_member(t: Seq<char>) -> Option<(Seq<char>, Seq<char>, Seq<char>)> {
    match read_string(t) {
        Some((key, after)) => if after.len() > 0 && after[0] == ':' {
            match read_string(after.drop_first()) {
                Some((value, rest)) => Some((key, value, rest)),
                None => None,
            }
        } else {
            None
        },
        None => None,
    }
}

/// The members of a JSON object whose values are strings, up to the bracket that closes it, and what
/// follows.
pub open spec fn read_members(t: Seq<char>) -> Option<(Seq<(Seq<char>, Seq<char>)>, Seq<char>)>
    decreases t.len(),
{
    match read_member(t) {
        Some((key, value, rest)) => if rest.len() == 0 || rest.len() >= t.len() {
            None
        } else if rest[0] == '}' {
            Some((seq![(key, value)], rest.drop_first()))
        } else if rest[0] == ',' {
            match read_members(rest.drop_first()) {
                Some((more, after)) => Some((seq![(key, value)] + more, after)),
                None => None,
            }
        } else {
            None
        },
        None => None,
    }
}

proof fn lemma_json_chars_first(s: Seq<char>)
    requires
        s.len() > 0,
    ensures
        json::json_chars(s) == json::json_char(s[0]) + json::json_chars(s.drop_first()),
    decreases s.len(),
{
    let rest = s.drop_first();
    if s.len() == 1 {
        assert(s.drop_last() =~= Seq::<char>::empty());
        assert(rest =~= Seq::<char>::empty());
        assert(json::json_chars(s) =~= json::json_char(s[0]) + json::json_chars(rest));
    } else {
        lemma_json_chars_first(s.drop_last());
        assert(s.drop_last().drop_first() =~= rest.drop_last());
        assert(json::json_chars(s) =~= json::json_char(s[0]) + json::json_chars(rest));
    }
}

proof fn lemma_digit_value(n: int)
    requires
        0 <= n < 16,
    ensures
        digit_value(hex::hex_digit(n, false)) == n,
{
    reveal_strlit("0123456789abcdef");
    let digits = "0123456789abcdef"@;
    let c = hex::hex_digit(n, false);
    assert(digits[n] == c);
    assert(digits.contains(c));
    let k = digits.index_of(c);
    assert(digits[k] == c && 0 <= k < 16);
    assert(k == n);
}

proof fn lemma_read_char(c: char, rest: Seq<char>)
    ensures
        ({
            let t = json::json_char(c) + rest;
            if t[0] == '\\' {
                read_escape(t) == Some((c, rest))
            } else {
                t[0] == c && c != '"' && t.drop_first() == rest
            }
        }),
{
    let t = json::json_char(c) + rest;
    if json::json_char(c).len() == 6 {
        let n = c as int;
        assert(n <= 31);
        lemma_digit_value(0);
        lemma_digit_value(n / 16);
        lemma_digit_value(n % 16);
        assert(hex::hex_digit(0, false) == '0');
        assert(t[0] == '\\' && t[1] == 'u' && t[2] == '0' && t[3] == '0');
        assert(t[4] == hex::hex_digit(n / 16, false) && t[5] == hex::hex_digit(n % 16, false));
        assert(t.skip(6) =~= rest);
        assert(16 * (n / 16) + n % 16 == n);
    } else if json::json_char(c).len() == 2 {
        assert(t[0] == '\\' && t[1] == json::json_char(c)[1]);
        assert(t.skip(2) =~= rest);
    } else {
        assert(t[0] == c);
        assert(t.drop_first() =~= rest);
    }
}

/// A JSON string is read back as the text that it was made of, and reading stops at its end.
pub proof fn law_json_string_is_read_back(s: Seq<char>, rest: Seq<char>)
    ensures
        read_string(json::json_string(s) + rest) == Some((s, rest)),
{
    let t = json::json_string(s) + rest;
    assert(t.drop_first() =~= json::json_chars(s) + (seq!['"'] + rest));
    lemma_read_chars(s, rest);
}

proof fn lemma_read_chars(s: Seq<char>, rest: Seq<char>)
    ensures
        read_chars(json::json_chars(s) + (seq!['"'] + rest)) == Some((s, rest)),
    decreases s.len(),
{
    let t = json::json_chars(s) + (seq!['"'] + rest);
    if s.len() == 0 {
        assert(t =~= seq!['"'] + rest);
        assert(t.drop_first() =~= rest);
        assert(s =~= Seq::<char>::empty());
    } else {
        let more = json::json_chars(s.drop_first()) + (seq!['"'] + rest);
        lemma_json_chars_first(s);
        assert(t =~= json::json_char(s[0]) + more);
        lemma_read_char(s[0], more);
        lemma_read_chars(s.drop_first(), rest);
        assert(seq![s[0]] + s.drop_first() =~= s);
    }
}

/// A text that needs no escaping in JSON.
pub open spec fn is_plain(s: Seq<char>) -> bool {
    forall|i: int| 0 <= i < s.len() ==> #[trigger] s[i] != '"' && s[i] != '\\' && s[i] as int >= 32
}

proof fn lemma_plain(s: Seq<char>)
    requires
        is_plain(s),
    ensures
        json::json_chars(s) == s,
    decreases s.len(),
{
    if s.len() > 0 {
        assert forall|i: int| 0 <= i < s.drop_last().len() implies #[trigger] s.drop_last()[i] != '"'
            && s.drop_last()[i] != '\\' && s.drop_last()[i] as int >= 32 by {
            assert(s[i] != '"');
        }
        lemma_plain(s.drop_last());
        assert(s[s.len() - 1] != '"');
        assert(json::json_chars(s) =~= s);
    } else {
        assert(json::json_chars(s) =~= s);
    }
}

proof fn lemma_read_member(key: Seq<char>, value: Seq<char>, rest: Seq<char>)
    requires
        is_plain(key),
    ensures
        read_member(onchain::text_member(key, value) + rest) == Some((key, value, rest)),
        (onchain::text_member(key, value) + rest).len() > rest.len(),
{
    reveal_strlit("\":");
    lemma_plain(key);
    let t = onchain::text_member(key, value) + rest;
    let after = json::json_string(value) + rest;
    assert(t =~= json::json_string(key) + (seq![':'] + after));
    law_json_string_is_read_back(key, seq![':'] + after);
    assert((seq![':'] + after).drop_first() =~= after);
    law_json_string_is_read_back(value, rest);
}

proof fn lemma_read_last(key: Seq<char>, value: Seq<char>, rest: Seq<char>)
    requires
        is_plain(key),
    ensures
        read_members(onchain::text_member(key, value) + (seq!['}'] + rest)) == Some(
            (seq![(key, value)], rest),
        ),
{
    lemma_read_member(key, value, seq!['}'] + rest);
    assert((seq!['}'] + rest).drop_first() =~= rest);
}

proof fn lemma_read_next(
    key: Seq<char>,
    value: Seq<char>,
    rest: Seq<char>,
    more: Seq<(Seq<char>, Seq<char>)>,
    after: Seq<char>,
)
    requires
        is_plain(key),
        read_members(rest) == Some((more, after)),
    ensures
        read_members(onchain::text_member(key, value) + (seq![','] + rest)) == Some(
            (seq![(key, value)] + more, after),
        ),
{
    lemma_read_member(key, value, seq![','] + rest);
    assert((seq![','] + rest).drop_first() =~= rest);
}

/// The arguments of the view method are a JSON document that holds, under `measurements`, exactly the
/// five registers, each under its own name and whole.
pub proof fn law_view_args_hold_the_registers(m: report::MeasurementsModel)
    ensures
        ({
            let head = "{\"measurements\":{"@;
            let args = onchain::view_args(m);
            &&& args.take(head.len() as int) == head
            &&& read_members(args.skip(head.len() as int)) == Some(
                (
                    seq![
                        ("mrtd"@, m.mrtd),
                        ("rtmr0"@, m.rtmr0),
                        ("rtmr1"@, m.rtmr1),
                        ("rtmr2"@, m.rtmr2),
                        ("rtmr3"@, m.rtmr3),
                    ],
                    "}"@,
                ),
            )
        }),
{
    let head = "{\"measurements\":{"@;
    lemma_args_shape(m);
    lemma_args_read(m);
    let t = members_of(m);
    assert((head + t).skip(head.len() as int) =~= t);
    assert((head + t).take(head.len() as int) =~= head);
}

spec fn members_of(m: report::MeasurementsModel) -> Seq<char> {
    onchain::text_member("mrtd"@, m.mrtd) + (seq![','] + (onchain::text_member("rtmr0"@, m.rtmr0) + (
    seq![','] + (onchain::text_member("rtmr1"@, m.rtmr1) + (seq![','] + (onchain::text_member(
        "rtmr2"@,
        m.rtmr2,
    ) + (seq![','] + (onchain::text_member("rtmr3"@, m.rtmr3) + (seq!['}'] + "}"@)))))))))
}

proof fn lemma_assoc(a: Seq<char>, b: Seq<char>, c: Seq<char>)
    ensures
        (a + b) + c == a + (b + c),
{
    assert((a + b) + c =~= a + (b + c));
}

proof fn lemma_five(
    h: Seq<char>,
    a: Seq<char>,
    b: Seq<char>,
    c: Seq<char>,
    d: Seq<char>,
    e: Seq<char>,
    x: Seq<char>,
    z: Seq<char>,
)
    ensures
        h + a + x + b + x + c + x + d + x + e + z == h + (a + (x + (b + (x + (c + (x + (d + (x + (e
            + z))))))))),
{
    let s7 = h + a + x + b + x + c + x + d + x;
    lemma_assoc(s7, e, z);
    let t3 = e + z;
    let s6 = h + a + x + b + x + c + x + d;
    lemma_assoc(s6, x, t3);
    let s5 = h + a + x + b + x + c + x;
    lemma_assoc(s5, d, x + t3);
    let t2 = d + (x + t3);
    let s4 = h + a + x + b + x + c;
    lemma_assoc(s4, x, t2);
    let s3 = h + a + x + b + x;
    lemma_assoc(s3, c, x + t2);
    let t1 = c + (x + t2);
    let s2 = h + a + x + b;
    lemma_assoc(s2, x, t1);
    let s1 = h + a + x;
    lemma_assoc(s1, b, x + t1);
    let t0 = b + (x + t1);
    lemma_assoc(h + a, x, t0);
    lemma_assoc(h, a, x + t0);
}

proof fn lemma_args_shape(m: report::MeasurementsModel)
    ensures
        onchain::view_args(m) == "{\"measurements\":{"@ + members_of(m),
{
    reveal_strlit("}}");
    reveal_strlit("}");
    reveal_strlit(",");
    assert("}}"@ =~= seq!['}'] + "}"@);
    assert(","@ =~= seq![',']);
    lemma_five(
        "{\"measurements\":{"@,
        onchain::text_member("mrtd"@, m.mrtd),
        onchain::text_member("rtmr0"@, m.rtmr0),
        onchain::text_member("rtmr1"@, m.rtmr1),
        onchain::text_member("rtmr2"@, m.rtmr2),
        onchain::text_member("rtmr3"@, m.rtmr3),
        ","@,
        "}}"@,
    );
}

proof fn lemma_plain_names()
    ensures
        is_plain("mrtd"@),
        is_plain("rtmr0"@),
        is_plain("rtmr1"@),
        is_plain("rtmr2"@),
        is_plain("rtmr3"@),
{
    reveal_strlit("mrtd");
    reveal_strlit("rtmr0");
    reveal_strlit("rtmr1");
    reveal_strlit("rtmr2");
    reveal_strlit("rtmr3");
}

proof fn lemma_args_read(m: report::MeasurementsModel)
    ensures
        read_members(members_of(m)) == Some(
            (
                seq![
                    ("mrtd"@, m.mrtd),
                    ("rtmr0"@, m.rtmr0),
                    ("rtmr1"@, m.rtmr1),
                    ("rtmr2"@, m.rtmr2),
                    ("rtmr3"@, m.rtmr3),
                ],
                "}"@,
            ),
        ),
{
    lemma_plain_names();
    let t3 = onchain::text_member("rtmr3"@, m.rtmr3) + (seq!['}'] + "}"@);
    let t2 = onchain::text_member("rtmr2"@, m.rtmr2) + (seq![','] + t3);
    let t1 = onchain::text_member("rtmr1"@, m.rtmr1) + (seq![','] + t2);
    let t0 = onchain::text_member("rtmr0"@, m.rtmr0) + (seq![','] + t1);
    let r3 = seq![("rtmr3"@, m.rtmr3)];
    let r2 = seq![("rtmr2"@, m.rtmr2)] + r3;
    let r1 = seq![("rtmr1"@, m.rtmr1)] + r2;
    let r0 = seq![("rtmr0"@, m.rtmr0)] + r1;
    lemma_read_last("rtmr3"@, m.rtmr3, "}"@);
    lemma_read_next("rtmr2"@, m.rtmr2, t3, r3, "}"@);
    lemma_read_next("rtmr1"@, m.rtmr1, t2, r2, "}"@);
    lemma_read_next("rtmr0"@, m.rtmr0, t1, r1, "}"@);
    lemma_read_next("mrtd"@, m.mrtd, t0, r0, "}"@);
    assert(seq![("mrtd"@, m.mrtd)] + r0 =~= seq![
        ("mrtd"@, m.mrtd),
        ("rtmr0"@, m.rtmr0),
        ("rtmr1"@, m.rtmr1),
        ("rtmr2"@, m.rtmr2),
        ("rtmr3"@, m.rtmr3),
    ]);
}

/// The arguments lose nothing: different measurements are different questions.
pub proof fn law_view_args_lose_nothing(
    a: report::MeasurementsModel,
    b: report::MeasurementsModel,
)
    requires
        onchain::view_args(a) == onchain::view_args(b),
    ensures
        a == b,
{
    law_view_args_hold_the_registers(a);
    law_view_args_hold_the_registers(b);
    let head = "{\"measurements\":{"@;
    let x = read_members(onchain::view_args(a).skip(head.len() as int))->Some_0.0;
    assert(x[0] == ("mrtd"@, a.mrtd) && x[0] == ("mrtd"@, b.mrtd));
    assert(x[1] == ("rtmr0"@, a.rtmr0) && x[1] == ("rtmr0"@, b.rtmr0));
    assert(x[2] == ("rtmr1"@, a.rtmr1) && x[2] == ("rtmr1"@, b.rtmr1));
    assert(x[3] == ("rtmr2"@, a.rtmr2) && x[3] == ("rtmr2"@, b.rtmr2));
    assert(x[4] == ("rtmr3"@, a.rtmr3) && x[4] == ("rtmr3"@, b.rtmr3));
}

/// The request calls the view method `is_measurements_approved` of the contract, on the final state,
/// with the arguments for these measurements.
pub proof fn law_request_asks_the_contract(contract: Seq<char>, m: report::MeasurementsModel)
    ensures
        ({
            let head =
                "{\"jsonrpc\":\"2.0\",\"id\":\"1\",\"method\":\"query\",\"params\":{\"request_type\":\"call_function\",\"finality\":\"final\","@;
            let request = onchain::rpc_request(contract, m);
            &&& request.take(head.len() as int) == head
            &&& read_members(request.skip(head.len() as int)) == Some(
                (
                    seq![
                        ("account_id"@, contract),
                        ("method_name"@, "is_measurements_approved"@),
                        (
                            "args_base64"@,
                            onchain::base64_text(
                                vstd::utf8::encode_utf8(onchain::view_args(m)),
                            ),
                        ),
                    ],
                    "}"@,
                ),
            )
        }),
{
    let head =
        "{\"jsonrpc\":\"2.0\",\"id\":\"1\",\"method\":\"query\",\"params\":{\"request_type\":\"call_function\",\"finality\":\"final\","@;
    let args = onchain::base64_text(vstd::utf8::encode_utf8(onchain::view_args(m)));
    let method = "is_measurements_approved"@;
    reveal_strlit("account_id");
    reveal_strlit("method_name");
    reveal_strlit("args_base64");
    reveal_strlit("is_measurements_approved");
    reveal_strlit("}}");
    reveal_strlit("}");
    reveal_strlit("\":");
    reveal_strlit(",\"method_name\":\"is_measurements_approved\",");
    let t2 = onchain::text_member("args_base64"@, args) + (seq!['}'] + "}"@);
    let t1 = onchain::text_member("method_name"@, method) + (seq![','] + t2);
    let t = onchain::text_member("account_id"@, contract) + (seq![','] + t1);
    let r2 = seq![("args_base64"@, args)];
    let r1 = seq![("method_name"@, method)] + r2;
    lemma_read_last("args_base64"@, args, "}"@);
    lemma_read_next("method_name"@, method, t2, r2, "}"@);
    lemma_read_next("account_id"@, contract, t1, r1, "}"@);
    lemma_plain(method);
    assert("}}"@ =~= seq!['}'] + "}"@);
    let middle = ",\"method_name\":\"is_measurements_approved\","@;
    let member = onchain::text_member("method_name"@, method);
    assert(member.len() == 40);
    assert(middle =~= seq![','] + member + seq![',']);
    let account = onchain::text_member("account_id"@, contract);
    let last = onchain::text_member("args_base64"@, args);
    let comma = seq![','];
    lemma_assoc(head + account + middle, last, "}}"@);
    lemma_assoc(head + account, middle, t2);
    lemma_assoc(comma + member, comma, t2);
    lemma_assoc(comma, member, comma + t2);
    lemma_assoc(head, account, comma + t1);
    assert(onchain::rpc_request(contract, m) == head + t);
    assert(onchain::rpc_request(contract, m).skip(head.len() as int) =~= t);
    assert(onchain::rpc_request(contract, m).take(head.len() as int) =~= head);
    assert(seq![("account_id"@, contract)] + r1 =~= seq![
        ("account_id"@, contract),
        ("method_name"@, method),
        ("args_base64"@, args),
    ]);
}

/// The characters of standard base64, by what they are worth.
pub open spec fn base64_alphabet() -> Seq<char> {
    "ABCDEFGHIJKLMNOPQRSTUVWXYZabcdefghijklmnopqrstuvwxyz0123456789+/"@
}

proof fn lemma_base64_char(n: int)
    requires
        0 <= n < 64,
    ensures
        onchain::base64_char(n) == base64_alphabet()[n],
{
    reveal_strlit("ABCDEFGHIJKLMNOPQRSTUVWXYZabcdefghijklmnopqrstuvwxyz0123456789+/");
}

/// Three bytes are one number of 24 bits, and its four groups of six bits are four characters. Where
/// fewer bytes are left, the missing ones count as zero and `=` stands for the groups that hold none of
/// the bits. What comes after whole groups of three bytes is written on its own.
pub proof fn law_base64(front: Seq<u8>, rest: Seq<u8>, x: u8, y: u8, z: u8)
    requires
        front.len() % 3 == 0,
    ensures
        onchain::base64_text(Seq::empty()) == Seq::<char>::empty(),
        onchain::base64_text(front + rest) == onchain::base64_text(front) + onchain::base64_text(
            rest,
        ),
        ({
            let n = x as int * 65536 + y as int * 256 + z as int;
            onchain::base64_text(seq![x, y, z]) == seq![
                base64_alphabet()[n / 262144],
                base64_alphabet()[n / 4096 % 64],
                base64_alphabet()[n / 64 % 64],
                base64_alphabet()[n % 64],
            ]
        }),
        ({
            let n = x as int * 65536 + y as int * 256;
            onchain::base64_text(seq![x, y]) == seq![
                base64_alphabet()[n / 262144],
                base64_alphabet()[n / 4096 % 64],
                base64_alphabet()[n / 64 % 64],
                '=',
            ]
        }),
        ({
            let n = x as int * 65536;
            onchain::base64_text(seq![x]) == seq![
                base64_alphabet()[n / 262144],
                base64_alphabet()[n / 4096 % 64],
                '=',
                '=',
            ]
        }),
{
    lemma_base64_joins(front, rest);
    lemma_base64_group(x as int, y as int, z as int);
    lemma_base64_group(x as int, y as int, 0);
    lemma_base64_group(x as int, 0, 0);
}

proof fn lemma_base64_group(x: int, y: int, z: int)
    requires
        0 <= x < 256,
        0 <= y < 256,
        0 <= z < 256,
    ensures
        ({
            let n = x * 65536 + y * 256 + z;
            &&& onchain::base64_char(x / 4) == base64_alphabet()[n / 262144]
            &&& onchain::base64_char(x % 4 * 16 + y / 16) == base64_alphabet()[n / 4096 % 64]
            &&& onchain::base64_char(y % 16 * 4 + z / 64) == base64_alphabet()[n / 64 % 64]
            &&& onchain::base64_char(z % 64) == base64_alphabet()[n % 64]
        }),
{
    let n = x * 65536 + y * 256 + z;
    assert(n / 262144 == x / 4);
    assert(n / 4096 == x * 16 + y / 16);
    assert((x * 16 + y / 16) % 64 == x % 4 * 16 + y / 16);
    assert(n / 64 == x * 1024 + y * 4 + z / 64);
    assert((x * 1024 + y * 4 + z / 64) % 64 == y % 16 * 4 + z / 64);
    assert(n % 64 == z % 64);
    lemma_base64_char(x / 4);
    lemma_base64_char(x % 4 * 16 + y / 16);
    lemma_base64_char(y % 16 * 4 + z / 64);
    lemma_base64_char(z % 64);
}

proof fn lemma_base64_joins(front: Seq<u8>, rest: Seq<u8>)
    requires
        front.len() % 3 == 0,
    ensures
        onchain::base64_text(front + rest) == onchain::base64_text(front) + onchain::base64_text(
            rest,
        ),
    decreases front.len(),
{
    if front.len() == 0 {
        assert(front + rest =~= rest);
        assert(onchain::base64_text(front) + onchain::base64_text(rest) =~= onchain::base64_text(
            rest,
        ));
    } else {
        let all = front + rest;
        let group = front.take(3);
        assert(all.skip(3) =~= front.skip(3) + rest);
        lemma_base64_joins(front.skip(3), rest);
        assert(onchain::base64_text(front.skip(3)).len() == 0 || front.len() > 3);
        if front.len() == 3 {
            assert(front.skip(3) =~= Seq::<u8>::empty());
            if rest.len() == 0 {
                assert(all =~= front);
            }
            assert(onchain::base64_text(all) =~= onchain::base64_text(front)
                + onchain::base64_text(rest));
        } else {
            assert(onchain::base64_text(all) =~= onchain::base64_text(front)
                + onchain::base64_text(rest));
        }
    }
}

/// A contract's answer is what the JSON value in the result's bytes says, and it is taken only from a
/// response with a success status whose document carries no error: for both answers, exactly then.
pub proof fn law_answer_is_the_returned_bool(reply: RpcReply, approved: bool)
    ensures
        onchain::approval_of_reply(reply) == Ok::<bool, onchain::ChainErrorModel>(approved) <==> {
            &&& reply matches RpcReply::Answered { code, body: Ok(body), .. }
            &&& 200 <= code < 300
            &&& json::json_document(body@) matches Ok(document)
            &&& json::json_member(document, "error"@) is None
            &&& json::json_member(document, "result"@) matches Some(outer)
            &&& json::json_member(outer, "result"@) matches Some(value)
            &&& json::json_bytes(value) matches Some(bytes)
            &&& json::json_document(bytes) == Ok::<json::Json, Seq<char>>(
                json::Json::Bool(approved),
            )
        },
{
}

/// What stands between a question and its answer is told in the order in which it comes up.
pub proof fn law_chain_errors_say_why(reply: RpcReply)
    ensures
        ({
            let text = match onchain::approval_of_reply(reply) {
                Ok(_) => None,
                Err(e) => Some(onchain::chain_error_text(e)),
            };
            match reply {
                RpcReply::ClientFailed(e) => text == Some("build RPC client: "@ + e@),
                RpcReply::RequestFailed(e) => text == Some("RPC request: "@ + e@),
                RpcReply::Answered { code, status, body } => if !(200 <= code < 300) {
                    text == Some("RPC HTTP "@ + status@)
                } else {
                    match body {
                        Err(e) => text == Some("decode RPC JSON: "@ + e@),
                        Ok(bytes) => match json::json_document(bytes@) {
                            Err(e) => text == Some(
                                "decode RPC JSON: "@ + ("error decoding response body: "@ + e),
                            ),
                            Ok(document) => document_says(document, text),
                        },
                    }
                },
            }
        }),
{
}

/// What is told of a JSON-RPC answer that could be read.
pub open spec fn document_says(document: json::Json, told: Option<Seq<char>>) -> bool {
    let value = match json::json_member(document, "result"@) {
        Some(outer) => json::json_member(outer, "result"@),
        None => None,
    };
    match json::json_member(document, "error"@) {
        Some(e) => told == Some("RPC error: "@ + json::json_print(e)),
        None => match value {
            None => told == Some("RPC response missing result.result"@),
            Some(v) => match json::json_bytes(v) {
                None => told == Some(
                    "result.result is not a byte array: "@ + json::json_bytes_error(v),
                ),
                Some(bytes) => match json::json_document(bytes) {
                    Err(e) => told == Some("view return value is not JSON: "@ + e),
                    Ok(json::Json::Bool(_)) => told is None,
                    Ok(_) => told == Some("is_measurements_approved did not return a bool"@),
                },
            },
        },
    }
}

/// The contracts and endpoints, by role and network. There are no others.
pub proof fn law_contracts_and_endpoints(role: report::Role, network: Seq<char>)
    ensures
        onchain::contract_for(report::Role::Worker, "mainnet"@) == Some(
            "worker.outlayer."@ + "near"@,
        ),
        onchain::contract_for(report::Role::Worker, "testnet"@) == Some(
            "worker.outlayer."@ + "testnet"@,
        ),
        onchain::contract_for(report::Role::Keystore, "mainnet"@) == Some(
            "dao.outlayer."@ + "near"@,
        ),
        onchain::contract_for(report::Role::Keystore, "testnet"@) == Some(
            "dao.outlayer."@ + "testnet"@,
        ),
        onchain::rpc_endpoint("mainnet"@) == Some("https://rpc.mainnet.fastnear.com"@),
        onchain::rpc_endpoint("testnet"@) == Some("https://rpc.testnet.fastnear.com"@),
        network != "mainnet"@ && network != "testnet"@ ==> onchain::contract_for(role, network)
            is None && onchain::rpc_endpoint(network) is None,
        role != report::Role::Worker && role != report::Role::Keystore ==> onchain::contract_for(
            role,
            network,
        ) is None,
{
    reveal_strlit("mainnet");
    reveal_strlit("testnet");
    assert("mainnet"@[0] != "testnet"@[0]);
}

/// A question goes to the endpoint of the network and carries the request for the contract and the
/// measurements; on a network without an endpoint there is none, and the error names the network.
pub proof fn law_question_goes_to_its_network(
    contract: Seq<char>,
    network: Seq<char>,
    m: report::MeasurementsModel,
)
    ensures
        match onchain::chain_query(contract, network, m) {
            Ok(query) => onchain::rpc_endpoint(network) == Some(query.0) && query.1
                == onchain::rpc_request(contract, m),
            Err(e) => onchain::rpc_endpoint(network) is None && onchain::chain_error_text(e)
                == "no RPC URL for network "@ + network,
        },
{
}

/// A member of an object is found under its key, and no other key finds anything.
pub proof fn law_members_are_found(members: Seq<(Seq<char>, json::Json)>, key: Seq<char>, i: int)
    requires
        forall|j: int, k: int|
            0 <= j < k < members.len() ==> (#[trigger] members[j]).0 != (#[trigger] members[k]).0,
    ensures
        0 <= i < members.len() ==> json::json_member(json::Json::Object(members), members[i].0)
            == Some(members[i].1),
        (forall|j: int| 0 <= j < members.len() ==> (#[trigger] members[j]).0 != key)
            ==> json::json_member(json::Json::Object(members), key) is None,
        forall|other: json::Json|
            !(other is Object) ==> #[trigger] json::json_member(other, key) is None,
{
    if 0 <= i < members.len() {
        let j = choose|j: int| 0 <= j < members.len() && (#[trigger] members[j]).0 == members[i].0;
        assert(members[i].0 == members[i].0);
        assert(0 <= j < members.len() && members[j].0 == members[i].0);
        if j < i {
            assert(members[j].0 != members[i].0);
        }
        if i < j {
            assert(members[i].0 != members[j].0);
        }
    }
}

/// A text of a document is read as it is, whatever it holds; what is no text is not read as one.
pub proof fn law_member_texts(document: json::Json, key: Seq<char>, s: Seq<char>)
    ensures
        json::json_member(document, key) == Some(json::Json::Text(s))
            ==> json::json_member_text(document, key) == Some(s),
        json::json_member_text(document, key) == Some(s) ==> json::json_member(document, key)
            == Some(json::Json::Text(s)),
{
}

/// A list of bytes is read from an array of integers below 256, each at its place, and from nothing
/// else.
pub proof fn law_byte_lists(items: Seq<json::Json>, bytes: Seq<u8>)
    ensures
        json::json_bytes(json::Json::Array(items)) == Some(bytes) <==> items.len() == bytes.len()
            && forall|i: int|
            0 <= i < items.len() ==> #[trigger] items[i] == json::Json::Integer(bytes[i] as int),
        forall|other: json::Json| !(other is Array) ==> #[trigger] json::json_bytes(other) is None,
{
    let document = json::Json::Array(items);
    if json::json_bytes(document) == Some(bytes) {
        assert forall|i: int| 0 <= i < items.len() implies #[trigger] items[i]
            == json::Json::Integer(bytes[i] as int) by {
            assert(json::is_json_byte(items[i]));
            assert(bytes[i] == items[i]->Integer_0 as u8);
        }
    }
    if items.len() == bytes.len() && forall|i: int|
        0 <= i < items.len() ==> #[trigger] items[i] == json::Json::Integer(bytes[i] as int) {
        assert(json::json_bytes(document)->Some_0 =~= bytes);
    }
}

/// A member's text is looked up in the document that a text is; what is no document has no members.
pub proof fn law_member_texts_of_documents(s: Seq<char>, key: Seq<char>)
    ensures
        match json::json_document(vstd::utf8::encode_utf8(s)) {
            Ok(document) => json::document_member_text(s, key) == json::json_member_text(
                document,
                key,
            ),
            Err(_) => json::document_member_text(s, key) is None,
        },
{
}

/// The status codes of success are those from 200 up to 299.
pub proof fn law_success_codes(code: u16)
    ensures
        onchain::is_success(code) <==> code / 100 == 2,
{
}

} // verus!
