//! Bytes in hexadecimal.
use vstd::prelude::*;

use crate::text;

verus! {

/// The hexadecimal digit for a number below sixteen; letters from `a` on where `upper` is false,
/// from `A` on where it is true.
pub open spec fn hex_digit(n: int, upper: bool) -> char {
    if n < 10 {
        (48 + n) as char
    } else if upper {
        (55 + n) as char
    } else {
        (87 + n) as char
    }
}

/// Two digits for each byte, the high half first.
pub open spec fn hex_of(bytes: Seq<u8>, upper: bool) -> Seq<char> {
    Seq::new(
        2 * bytes.len(),
        |i: int|
            hex_digit(
                if i % 2 == 0 {
                    bytes[i / 2] as int / 16
                } else {
                    bytes[i / 2] as int % 16
                },
                upper,
            ),
    )
}

fn push_digit(s: &mut String, n: u8, upper: bool)
    requires
        n < 16,
    ensures
        final(s)@ == old(s)@.push(hex_digit(n as int, upper)),
{
    let c = if n < 10 {
        (48 + n) as char
    } else if upper {
        (55 + n) as char
    } else {
        (87 + n) as char
    };
    s.push(c);
}

fn hex_text(bytes: &[u8], upper: bool) -> (r: String)
    ensures
        r@ == hex_of(bytes@, upper),
{
    let mut s = String::new();
    let mut i: usize = 0;
    while i < bytes.len()
        invariant
            i <= bytes@.len(),
            s@ == hex_of(bytes@.take(i as int), upper),
        decreases bytes@.len() - i,
    {
        let b: u8 = bytes[i];
        push_digit(&mut s, b / 16, upper);
        push_digit(&mut s, b % 16, upper);
        i = i + 1;
        assert(s@ =~= hex_of(bytes@.take(i as int), upper));
    }
    assert(bytes@.take(i as int) =~= bytes@);
    s
}

/// Lower-case hexadecimal of a byte slice.
pub fn hex_lower(bytes: &[u8]) -> (r: String)
    ensures
        r@ == hex_of(bytes@, false),
{
    hex_text(bytes, false)
}

/// Upper-case hexadecimal of a byte slice (Intel's convention for an FMSPC).
pub fn hex_upper(bytes: &[u8]) -> (r: String)
    ensures
        r@ == hex_of(bytes@, true),
{
    hex_text(bytes, true)
}

/// Whether two hexadecimal texts agree but for the case of their letters.
pub fn hex_eq(a: &str, b: &str) -> (r: bool)
    ensures
        r == (text::lowered(a@) == text::lowered(b@)),
{
    text::same_ignoring_case(a, b)
}

/// The upper-case and the lower-case text of the same bytes are equal to `hex_eq`.
pub proof fn law_hex_case_agrees(bytes: Seq<u8>)
    ensures
        text::lowered(hex_of(bytes, true)) == text::lowered(hex_of(bytes, false)),
        text::lowered(hex_of(bytes, false)) == hex_of(bytes, false),
{
    assert forall|i: int| 0 <= i < 2 * bytes.len() implies text::lower(
        #[trigger] hex_of(bytes, true)[i],
    ) == hex_of(bytes, false)[i] && text::lower(hex_of(bytes, false)[i]) == hex_of(bytes, false)[i] by {}
    assert(text::lowered(hex_of(bytes, true)) =~= hex_of(bytes, false));
    assert(text::lowered(hex_of(bytes, false)) =~= hex_of(bytes, false));
}

/// Different bytes have different texts, even where the case of the letters is left out.
pub proof fn law_hex_tells_bytes_apart(a: Seq<u8>, b: Seq<u8>)
    requires
        text::lowered(hex_of(a, false)) == text::lowered(hex_of(b, false)),
    ensures
        a == b,
{
    law_hex_case_agrees(a);
    law_hex_case_agrees(b);
    assert(hex_of(a, false).len() == hex_of(b, false).len());
    assert forall|k: int| 0 <= k < a.len() implies a[k] == b[k] by {
        assert(hex_of(a, false)[2 * k] == hex_of(b, false)[2 * k]);
        assert(hex_of(a, false)[2 * k + 1] == hex_of(b, false)[2 * k + 1]);
        assert((2 * k) / 2 == k && (2 * k + 1) / 2 == k);
    }
    assert(a =~= b);
}

} // verus!
