use vstd::prelude::*;
use vstd::string::StrSliceExecFns;
use crate::model::Rgb8;

verus! {

pub open spec fn is_hex_digit(c: char) -> bool {
    ||| 48 <= c as u32 && c as u32 <= 57
    ||| 97 <= c as u32 && c as u32 <= 102
    ||| 65 <= c as u32 && c as u32 <= 70
}

/// The numeric value of a hex digit (meaningful only when `is_hex_digit`).
pub open spec fn hex_val(c: char) -> int {
    if 48 <= c as u32 && c as u32 <= 57 {
        c as u32 - 48
    } else if 97 <= c as u32 && c as u32 <= 102 {
        c as u32 - 87
    } else {
        c as u32 - 55
    }
}

pub open spec fn all_hex(s: Seq<char>) -> bool {
    forall|i: int| 0 <= i < s.len() ==> is_hex_digit(#[trigger] s[i])
}

/// The hex color grammar: an optional `#`, then either six hex digits
/// (two per channel) or three (each standing for a doubled digit),
/// case-insensitive. The flag records whether the `#` marker was present.
pub open spec fn spec_parse_hex(s: Seq<char>) -> Option<(Rgb8, bool)> {
    let hash = s.len() > 0 && s[0] == '#';
    let body = if hash { s.skip(1) } else { s };
    if body.len() == 6 && all_hex(body) {
        Some(
            (
                Rgb8 {
                    red: (16 * hex_val(body[0]) + hex_val(body[1])) as u8,
                    green: (16 * hex_val(body[2]) + hex_val(body[3])) as u8,
                    blue: (16 * hex_val(body[4]) + hex_val(body[5])) as u8,
                },
                hash,
            ),
        )
    } else if body.len() == 3 && all_hex(body) {
        Some(
            (
                Rgb8 {
                    red: (17 * hex_val(body[0])) as u8,
                    green: (17 * hex_val(body[1])) as u8,
                    blue: (17 * hex_val(body[2])) as u8,
                },
                hash,
            ),
        )
    } else {
        None
    }
}

/// The numeric value of one hex digit, or `None` for any other character.
pub fn hex_digit(c: char) -> (r: Option<u8>)
    ensures
        r is Some <==> is_hex_digit(c),
        r is Some ==> r->0 == hex_val(c) && r->0 < 16,
{
    let v = c as u32;
    if 48 <= v && v <= 57 {
        Some((v - 48) as u8)
    } else if 97 <= v && v <= 102 {
        Some((v - 87) as u8)
    } else if 65 <= v && v <= 70 {
        Some((v - 55) as u8)
    } else {
        None
    }
}

/// Parses one line of hex color text; `None` exactly when the text does not
/// match the grammar of `spec_parse_hex`.
pub fn parse_hex_color(s: &str) -> (r: Option<(Rgb8, bool)>)
    ensures
        r == spec_parse_hex(s@),
{
    let n = s.unicode_len();
    let hash = n > 0 && s.get_char(0) == '#';
    let start: usize = if hash { 1 } else { 0 };
    let ghost body = if hash { s@.skip(1) } else { s@ };
    proof {
        assert forall|i: int| 0 <= i < body.len() implies body[i] == s@[i + start] by {}
    }
    let blen = n - start;
    if blen == 6 {
        let r0 = hex_digit(s.get_char(start));
        let r1 = hex_digit(s.get_char(start + 1));
        let r2 = hex_digit(s.get_char(start + 2));
        let r3 = hex_digit(s.get_char(start + 3));
        let r4 = hex_digit(s.get_char(start + 4));
        let r5 = hex_digit(s.get_char(start + 5));
        match (r0, r1, r2, r3, r4, r5) {
            (Some(d0), Some(d1), Some(d2), Some(d3), Some(d4), Some(d5)) => {
                let col = Rgb8 { red: 16 * d0 + d1, green: 16 * d2 + d3, blue: 16 * d4 + d5 };
                Some((col, hash))
            },
            _ => None,
        }
    } else if blen == 3 {
        let r0 = hex_digit(s.get_char(start));
        let r1 = hex_digit(s.get_char(start + 1));
        let r2 = hex_digit(s.get_char(start + 2));
        match (r0, r1, r2) {
            (Some(d0), Some(d1), Some(d2)) => {
                let col = Rgb8 { red: 17 * d0, green: 17 * d1, blue: 17 * d2 };
                Some((col, hash))
            },
            _ => None,
        }
    } else {
        None
    }
}

/// The lowercase hex digit for a value below sixteen.
pub open spec fn hex_char(v: int) -> char {
    if v == 0 { '0' } else if v == 1 { '1' } else if v == 2 { '2' } else if v == 3 { '3' }
    else if v == 4 { '4' } else if v == 5 { '5' } else if v == 6 { '6' } else if v == 7 { '7' }
    else if v == 8 { '8' } else if v == 9 { '9' } else if v == 10 { 'a' } else if v == 11 { 'b' }
    else if v == 12 { 'c' } else if v == 13 { 'd' } else if v == 14 { 'e' } else { 'f' }
}

/// Six lowercase hex digits, two per channel, after an optional `#` marker.
pub open spec fn spec_format_hex(c: Rgb8, hash: bool) -> Seq<char> {
    let digits = seq![
        hex_char(c.red as int / 16),
        hex_char(c.red as int % 16),
        hex_char(c.green as int / 16),
        hex_char(c.green as int % 16),
        hex_char(c.blue as int / 16),
        hex_char(c.blue as int % 16),
    ];
    if hash {
        seq!['#'] + digits
    } else {
        digits
    }
}

fn nibble_str(v: u8) -> (r: &'static str)
    requires
        v < 16,
    ensures
        r@ =~= seq![hex_char(v as int)],
{
    proof {
        reveal_strlit("0"); reveal_strlit("1"); reveal_strlit("2"); reveal_strlit("3");
        reveal_strlit("4"); reveal_strlit("5"); reveal_strlit("6"); reveal_strlit("7");
        reveal_strlit("8"); reveal_strlit("9"); reveal_strlit("a"); reveal_strlit("b");
        reveal_strlit("c"); reveal_strlit("d"); reveal_strlit("e"); reveal_strlit("f");
    }
    if v == 0 { "0" } else if v == 1 { "1" } else if v == 2 { "2" } else if v == 3 { "3" }
    else if v == 4 { "4" } else if v == 5 { "5" } else if v == 6 { "6" } else if v == 7 { "7" }
    else if v == 8 { "8" } else if v == 9 { "9" } else if v == 10 { "a" } else if v == 11 { "b" }
    else if v == 12 { "c" } else if v == 13 { "d" } else if v == 14 { "e" } else { "f" }
}

/// Renders a color as hex text, re-adding the `#` marker when asked to.
pub fn format_hex_color(c: Rgb8, hash: bool) -> (r: String)
    ensures
        r@ == spec_format_hex(c, hash),
{
    let mut out = String::new();
    if hash {
        proof {
            reveal_strlit("#");
        }
        out.append("#");
    }
    out.append(nibble_str(c.red / 16));
    out.append(nibble_str(c.red % 16));
    out.append(nibble_str(c.green / 16));
    out.append(nibble_str(c.green % 16));
    out.append(nibble_str(c.blue / 16));
    out.append(nibble_str(c.blue % 16));
    proof {
        assert(out@ =~= spec_format_hex(c, hash));
    }
    out
}

} // verus!
