//! Textual hex <-> byte codec.
//!
//! Call data arrives as hex strings (from files or inline constants). A
//! string parses only when its length is even and every character is a hex
//! digit; anything else is rejected outright, never truncated.

use vstd::prelude::*;

verus! {

/// A character is a hex digit: `0-9`, `a-f` or `A-F`.
pub open spec fn spec_is_hex_digit(c: char) -> bool {
    let u = c as u32;
    (48 <= u && u <= 57) || (97 <= u && u <= 102) || (65 <= u && u <= 70)
}

/// Numeric value of a hex digit.
pub open spec fn spec_hex_digit_value(c: char) -> u8
    recommends
        spec_is_hex_digit(c),
{
    let u = c as u32;
    if 48 <= u && u <= 57 {
        (u - 48) as u8
    } else if 97 <= u && u <= 102 {
        (u - 87) as u8
    } else {
        (u - 55) as u8
    }
}

/// A hex string is well-formed when its length is even and every character
/// is a hex digit.
pub open spec fn spec_hex_valid(s: Seq<char>) -> bool {
    s.len() % 2 == 0 && (forall|i: int| 0 <= i < s.len() ==> spec_is_hex_digit(#[trigger] s[i]))
}

/// The bytes denoted by a well-formed hex string: one byte per character
/// pair, high nibble first.
pub open spec fn spec_hex_to_bytes(s: Seq<char>) -> Seq<u8>
    recommends
        spec_hex_valid(s),
{
    Seq::new(
        s.len() / 2,
        |i: int| (spec_hex_digit_value(s[2 * i]) * 16 + spec_hex_digit_value(s[2 * i + 1])) as u8,
    )
}

/// ASCII code of the lower-case hex digit for a nibble.
pub open spec fn spec_nibble_code(n: u8) -> u8
    recommends
        n < 16,
{
    if n < 10 {
        (48 + n) as u8
    } else {
        (87 + n) as u8
    }
}

/// Lower-case hex rendering of a byte string: two digits per byte.
pub open spec fn spec_bytes_to_hex(b: Seq<u8>) -> Seq<char> {
    Seq::new(
        2 * b.len(),
        |i: int| if i % 2 == 0 {
            spec_nibble_code(b[i / 2] / 16) as char
        } else {
            spec_nibble_code(b[i / 2] % 16) as char
        },
    )
}

/// Parses one character as a hex digit; `None` exactly on non-digits.
fn hex_digit_value(c: char) -> (r: Option<u8>)
    ensures
        r is Some <==> spec_is_hex_digit(c),
        r is Some ==> r->0 == spec_hex_digit_value(c),
{
    let u = c as u32;
    if 48 <= u && u <= 57 {
        Some((u - 48) as u8)
    } else if 97 <= u && u <= 102 {
        Some((u - 87) as u8)
    } else if 65 <= u && u <= 70 {
        Some((u - 55) as u8)
    } else {
        None
    }
}

/// Parses a hex string into its bytes.
///
/// Returns `Some` exactly when the string has even length and holds hex
/// digits only; a malformed string is rejected as a whole, nothing is
/// silently dropped.
pub fn hex_string_to_bytes(s: &String) -> (r: Option<Vec<u8>>)
    ensures
        r is Some <==> spec_hex_valid(s@),
        r is Some ==> r->0@ == spec_hex_to_bytes(s@),
{
    let st = s.as_str();
    let n = st.unicode_len();
    if n % 2 != 0 {
        return None;
    }
    let mut out: Vec<u8> = Vec::new();
    let mut i: usize = 0;
    while i < n
        invariant
            n == st@.len(),
            st@ == s@,
            n % 2 == 0,
            i % 2 == 0,
            i <= n,
            forall|j: int| 0 <= j < i ==> spec_is_hex_digit(#[trigger] st@[j]),
            out@ =~= spec_hex_to_bytes(st@.take(i as int)),
        decreases n - i,
    {
        let c0 = st.get_char(i);
        let c1 = st.get_char(i + 1);
        let v0 = match hex_digit_value(c0) {
            Some(v) => v,
            None => {
                return None;
            },
        };
        let v1 = match hex_digit_value(c1) {
            Some(v) => v,
            None => {
                return None;
            },
        };
        out.push(v0 * 16 + v1);
        i = i + 2;
        proof {
            assert(out@ =~= spec_hex_to_bytes(st@.take(i as int)));
        }
    }
    proof {
        assert(st@.take(n as int) =~= st@);
    }
    Some(out)
}

/// Relies on `String::from_utf8`: a byte string of ASCII codes converts to
/// the string of exactly those characters (ASCII is valid UTF-8).
#[verifier::external_body]
fn string_from_ascii(b: Vec<u8>) -> (r: String)
    requires
        forall|i: int| 0 <= i < b@.len() ==> b@[i] < 128,
    ensures
        r@.len() == b@.len(),
        forall|i: int| 0 <= i < b@.len() ==> r@[i] == b@[i] as char,
{
    String::from_utf8(b).unwrap()
}

/// Exec mirror of [`spec_nibble_code`].
fn nibble_code(n: u8) -> (c: u8)
    requires
        n < 16,
    ensures
        c == spec_nibble_code(n),
        c < 128,
{
    if n < 10 {
        48 + n
    } else {
        87 + n
    }
}

/// Renders bytes as lower-case hex, two digits per byte.
pub fn hex_from_bytes(b: &Vec<u8>) -> (r: String)
    ensures
        r@ == spec_bytes_to_hex(b@),
{
    let mut out: Vec<u8> = Vec::new();
    let n = b.len();
    let mut i: usize = 0;
    while i < n
        invariant
            n == b@.len(),
            i <= n,
            out@.len() == 2 * i,
            forall|j: int| 0 <= j < 2 * i ==> out@[j] < 128,
            forall|j: int|
                0 <= j < 2 * i ==> #[trigger] out@[j] as char == spec_bytes_to_hex(b@)[j],
        decreases n - i,
    {
        let byte = b[i];
        out.push(nibble_code(byte / 16));
        out.push(nibble_code(byte % 16));
        i = i + 1;
    }
    let r = string_from_ascii(out);
    proof {
        assert(r@ =~= spec_bytes_to_hex(b@));
    }
    r
}

/// Parsing undoes rendering: for every byte string, the lower-case hex text
/// it renders to is well-formed and parses back to the same bytes.
pub proof fn lemma_hex_round_trip(b: Seq<u8>)
    ensures
        spec_hex_valid(spec_bytes_to_hex(b)),
        spec_hex_to_bytes(spec_bytes_to_hex(b)) =~= b,
{
    let h = spec_bytes_to_hex(b);
    assert forall|i: int| 0 <= i < h.len() implies spec_is_hex_digit(#[trigger] h[i]) by {
        let v = if i % 2 == 0 {
            b[i / 2] / 16
        } else {
            b[i / 2] % 16
        };
        assert(v < 16);
        assert(h[i] == spec_nibble_code(v) as char);
    }
    assert forall|i: int| 0 <= i < b.len() implies spec_hex_to_bytes(h)[i] == b[i] by {
        let hi = b[i] / 16;
        let lo = b[i] % 16;
        assert(h[2 * i] == spec_nibble_code(hi) as char);
        assert(h[2 * i + 1] == spec_nibble_code(lo) as char);
        assert(spec_hex_digit_value(spec_nibble_code(hi) as char) == hi);
        assert(spec_hex_digit_value(spec_nibble_code(lo) as char) == lo);
        assert(hi * 16 + lo == b[i]);
    }
}

} // verus!
