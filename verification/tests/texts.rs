use attestation_portal::hex::{hex_eq, hex_lower, hex_upper};
use attestation_portal::html::Html;
use attestation_portal::json::text_member;
use attestation_portal::text::{
    after_prefix, begins_with, chars_of, copied, copied_list, decimal_text, has_text, is_among,
    is_empty, joined, lower_text, only_digits, precedes, same_ignoring_case, same_text,
    split_at_first, split_at_last, split_lead, split_lines, trim_text, unique_texts,
};

fn list(items: &[&str]) -> Vec<String> {
    items.iter().map(|s| s.to_string()).collect()
}

#[test]
fn texts_are_searched() {
    assert!(has_text("keystore", "store"));
    assert!(has_text("keystore", ""));
    assert!(has_text("ströme", "röm"));
    assert!(!has_text("key", "keystore"));
    assert!(begins_with("image: x", "image:"));
    assert!(!begins_with("imag", "image:"));
    assert_eq!(after_prefix("Bearer x", "Bearer ").as_deref(), Some("x"));
    assert_eq!(after_prefix("bearer x", "Bearer "), None);
    assert!(same_text("ä", "ä") && !same_text("a", "ab") && !same_text("ab", "aa"));
}

#[test]
fn texts_are_split() {
    let pair = |a: &str, b: &str| Some((a.to_string(), b.to_string()));
    assert_eq!(split_at_first("a@@b@@c", "@@"), pair("a", "b@@c"));
    assert_eq!(split_at_first("abc", "@@"), None);
    assert_eq!(split_at_last("a-b-c", '-'), pair("a-b", "c"));
    assert_eq!(split_at_last("-", '-'), pair("", ""));
    assert_eq!(split_at_last("abc", '-'), None);
}

#[test]
fn lines_are_those_of_std() {
    let samples = ["", "\n", "a", "a\n", "a\r\nb", "a\rb\n\r\n", "\r\n\r", "x\n\ny", "é\r\r\n"];
    for s in samples {
        let wanted: Vec<String> = s.lines().map(|l| l.to_string()).collect();
        assert_eq!(split_lines(s), wanted, "{s:?}");
    }
}

#[test]
fn white_space_is_that_of_std() {
    let samples = ["", " ", " a b ", "\u{a0}x\u{2003}", "\u{3000}\t\r\nq\u{85}", "\u{200b}z", "ab"];
    for s in samples {
        assert_eq!(trim_text(s), s.trim(), "{s:?}");
        let (lead, rest) = split_lead(s);
        assert_eq!(rest, s.trim_start(), "{s:?}");
        assert_eq!(lead.len(), s.len() - s.trim_start().len(), "{s:?}");
    }
}

#[test]
fn case_is_that_of_ascii() {
    assert_eq!(lower_text("AbZ@[É"), "AbZ@[É".to_ascii_lowercase());
    assert!(same_ignoring_case("KmS", "kMs"));
    assert!(!same_ignoring_case("É", "é"));
}

#[test]
fn numbers_are_written_in_decimal() {
    for n in [0, 7, 10, 99, 100, 4_294_967_296, u64::MAX] {
        assert_eq!(decimal_text(n), n.to_string());
    }
    assert!(only_digits("0123456789") && only_digits(""));
    assert!(!only_digits("12a") && !only_digits("١"));
}

#[test]
fn texts_are_ordered_as_std_orders_them() {
    let samples = ["", "a", "ab", "b", "B", "aé", "az", "z", "\u{10000}", "\u{ffff}"];
    for a in samples {
        for b in samples {
            assert_eq!(precedes(a, b), a < b, "{a:?} {b:?}");
        }
    }
}

#[test]
fn lists_lose_their_repetitions() {
    let items = list(&["b", "a", "b", "c", "a"]);
    assert!(is_among(&items, "c") && !is_among(&items, "d"));
    assert_eq!(unique_texts(items), ["b", "a", "c"]);
    assert!(unique_texts(Vec::new()).is_empty());
}

#[test]
fn texts_are_copied_and_joined() {
    assert_eq!(joined("a", "b"), "ab");
    assert_eq!(copied(&Some("x".to_string())).as_deref(), Some("x"));
    assert_eq!(copied(&None), None);
    assert_eq!(copied_list(&list(&["x", "y"])), ["x", "y"]);
    assert_eq!(chars_of("aé"), ['a', 'é']);
    assert!(is_empty("") && !is_empty(" "));
}

#[test]
fn hexadecimal_keeps_bytes_apart() {
    assert_eq!(hex_lower(&[0x00, 0x9a, 0xff]), "009aff");
    assert_eq!(hex_upper(&[0x00, 0x9a, 0xff]), "009AFF");
    assert_eq!(hex_upper(&[]), "");
    for b in 0..=255u8 {
        assert_eq!(hex_lower(&[b]), format!("{b:02x}"));
        assert!(hex_eq(&hex_upper(&[b]), &hex_lower(&[b])));
        assert!(!hex_eq(&hex_lower(&[b]), &hex_lower(&[b.wrapping_add(1)])));
    }
}

#[test]
fn members_of_json_are_read() {
    assert_eq!(text_member("{\"a\":\"x\",\"b\":2}", "a").as_deref(), Some("x"));
    assert_eq!(text_member("{\"a\":\"x\",\"b\":2}", "b"), None);
    assert_eq!(text_member("{\"a\":\"x\"}", "c"), None);
    assert_eq!(text_member("[\"a\"]", "a"), None);
    assert_eq!(text_member("{\"a\":", "a"), None);
    assert_eq!(text_member("{\"a\":\"\\u00e9\\n\"}", "a").as_deref(), Some("é\n"));
}

#[test]
fn text_is_escaped_and_markup_is_not() {
    let page = Html::new().markup("<p title=\"").text("a<b>&\"'é").markup("\">").finish();
    assert_eq!(page, "<p title=\"a&lt;b&gt;&amp;&quot;&#x27;é\">");
    assert_eq!(Html::new().finish(), "");
    let hostile = Html::new().text("<script>alert('1')</script>").finish();
    assert!(!hostile.contains(|c| c == '<' || c == '>' || c == '"' || c == '\''));
}

#[test]
fn different_texts_look_different() {
    let shown = |t: &str| Html::new().text(t).finish();
    let texts = ["<", "&lt;", "&amp;lt;", "lt;", "&", "\"", "'", "&#x27;", ""];
    for a in texts {
        for b in texts {
            assert_eq!(shown(a) == shown(b), a == b, "{a:?} {b:?}");
        }
    }
}
