//! Color values attached to formula regions, and the parsing of color
//! arguments.
//!
//! A color argument is either a hash sign followed by six or eight hex
//! digits, or one of a small set of color names.

use vstd::prelude::*;
use vstd::string::*;
use vstd::utf8::is_ascii_chars;
use vstd::utf8::is_ascii_chars_encode_utf8;

use crate::parser::error::ParseError;

verus! {

/// A color as red, green, blue and alpha channels, 8 bits each.
#[derive(Debug, Clone, Copy, PartialEq, Eq, Structural)]
pub struct RGBA(pub u8, pub u8, pub u8, pub u8);

/// The value of one hex digit, upper or lower case.
pub open spec fn hex_digit_spec(b: u8) -> Option<u8> {
    if 48 <= b <= 57 {
        Some((b - 48) as u8)
    } else if 97 <= b <= 102 {
        Some((b - 87) as u8)
    } else if 65 <= b <= 70 {
        Some((b - 55) as u8)
    } else {
        None
    }
}

/// The channel value of two hex digits.
pub open spec fn hex_pair_spec(hi: u8, lo: u8) -> Option<u8> {
    match (hex_digit_spec(hi), hex_digit_spec(lo)) {
        (Some(h), Some(l)) => Some((h * 16 + l) as u8),
        _ => None,
    }
}

/// The color named by a recognized color name, as bytes.
pub open spec fn named_color_spec(bs: Seq<u8>) -> Option<RGBA> {
    if bs == seq![116u8, 114u8, 97u8, 110u8, 115u8, 112u8, 97u8, 114u8, 101u8, 110u8, 116u8] {
        Some(RGBA(0, 0, 0, 0))
    } else
    if bs == seq![98u8, 108u8, 97u8, 99u8, 107u8] {
        Some(RGBA(0, 0, 0, 255))
    } else
    if bs == seq![119u8, 104u8, 105u8, 116u8, 101u8] {
        Some(RGBA(255, 255, 255, 255))
    } else
    if bs == seq![114u8, 101u8, 100u8] {
        Some(RGBA(255, 0, 0, 255))
    } else
    if bs == seq![103u8, 114u8, 101u8, 101u8, 110u8] {
        Some(RGBA(0, 128, 0, 255))
    } else
    if bs == seq![98u8, 108u8, 117u8, 101u8] {
        Some(RGBA(0, 0, 255, 255))
    } else
    if bs == seq![99u8, 121u8, 97u8, 110u8] {
        Some(RGBA(0, 255, 255, 255))
    } else
    if bs == seq![109u8, 97u8, 103u8, 101u8, 110u8, 116u8, 97u8] {
        Some(RGBA(255, 0, 255, 255))
    } else
    if bs == seq![121u8, 101u8, 108u8, 108u8, 111u8, 119u8] {
        Some(RGBA(255, 255, 0, 255))
    } else
    if bs == seq![103u8, 114u8, 97u8, 121u8] {
        Some(RGBA(128, 128, 128, 255))
    } else
    if bs == seq![111u8, 114u8, 97u8, 110u8, 103u8, 101u8] {
        Some(RGBA(255, 165, 0, 255))
    } else
    if bs == seq![99u8, 104u8, 97u8, 114u8, 116u8, 114u8, 101u8, 117u8, 115u8, 101u8] {
        Some(RGBA(127, 255, 0, 255))
    } else
    if bs == seq![99u8, 104u8, 111u8, 99u8, 111u8, 108u8, 97u8, 116u8, 101u8] {
        Some(RGBA(210, 105, 30, 255))
    } else {
        None
    }
}

/// The color selected by an argument's bytes: a hash sign with six hex
/// digits is an opaque color, one with eight digits carries its alpha,
/// and anything else must be a recognized color name.
pub open spec fn parse_color_spec(bs: Seq<u8>) -> Option<RGBA> {
    if bs.len() == 7 && bs[0] == 35 {
        match (hex_pair_spec(bs[1], bs[2]), hex_pair_spec(bs[3], bs[4]), hex_pair_spec(
            bs[5],
            bs[6],
        )) {
            (Some(r), Some(g), Some(b)) => Some(RGBA(r, g, b, 255)),
            _ => None,
        }
    } else if bs.len() == 9 && bs[0] == 35 {
        match (hex_pair_spec(bs[1], bs[2]), hex_pair_spec(bs[3], bs[4]), hex_pair_spec(
            bs[5],
            bs[6],
        ), hex_pair_spec(bs[7], bs[8])) {
            (Some(r), Some(g), Some(b), Some(a)) => Some(RGBA(r, g, b, a)),
            _ => None,
        }
    } else {
        named_color_spec(bs)
    }
}

/// The value of one hex digit.
fn hex_digit(b: u8) -> (r: Option<u8>)
    ensures
        r == hex_digit_spec(b),
{
    if 48 <= b && b <= 57 {
        Some(b - 48)
    } else if 97 <= b && b <= 102 {
        Some(b - 87)
    } else if 65 <= b && b <= 70 {
        Some(b - 55)
    } else {
        None
    }
}

/// The channel value of two hex digits.
fn hex_pair(hi: u8, lo: u8) -> (r: Option<u8>)
    ensures
        r == hex_pair_spec(hi, lo),
{
    match (hex_digit(hi), hex_digit(lo)) {
        (Some(h), Some(l)) => Some(h * 16 + l),
        _ => None,
    }
}

/// Whether two byte slices hold the same bytes.
fn bytes_eq(a: &[u8], b: &[u8]) -> (r: bool)
    ensures
        r == (a@ == b@),
{
    if a.len() != b.len() {
        proof {
            assert(a@.len() != b@.len());
        }
        return false;
    }
    let n: usize = a.len();
    let mut i: usize = 0;
    while i < n
        invariant
            i <= n,
            a@.len() == n,
            b@.len() == n,
            forall|j: int| 0 <= j < i ==> a@[j] == b@[j],
        decreases n - i,
    {
        if a[i] != b[i] {
            return false;
        }
        i = i + 1;
    }
    proof {
        assert(a@ =~= b@);
    }
    true
}

/// The color a recognized name selects.
fn named_color(bs: &[u8]) -> (r: Option<RGBA>)
    ensures
        r == named_color_spec(bs@),
{
    if bytes_eq(bs, "transparent".as_bytes()) {
        proof {
            reveal_strlit("transparent");
            assert(is_ascii_chars("transparent"@));
            is_ascii_chars_encode_utf8("transparent"@);
            assert(bs@ =~= "transparent".spec_bytes());
            assert(bs@ =~= seq![116u8, 114u8, 97u8, 110u8, 115u8, 112u8, 97u8, 114u8, 101u8, 110u8, 116u8]);
        }
        return Some(RGBA(0, 0, 0, 0));
    }
    if bytes_eq(bs, "black".as_bytes()) {
        proof {
            reveal_strlit("black");
            assert(is_ascii_chars("black"@));
            is_ascii_chars_encode_utf8("black"@);
            assert(bs@ =~= "black".spec_bytes());
            assert(bs@ =~= seq![98u8, 108u8, 97u8, 99u8, 107u8]);
        }
        return Some(RGBA(0, 0, 0, 255));
    }
    if bytes_eq(bs, "white".as_bytes()) {
        proof {
            reveal_strlit("white");
            assert(is_ascii_chars("white"@));
            is_ascii_chars_encode_utf8("white"@);
            assert(bs@ =~= "white".spec_bytes());
            assert(bs@ =~= seq![119u8, 104u8, 105u8, 116u8, 101u8]);
        }
        return Some(RGBA(255, 255, 255, 255));
    }
    if bytes_eq(bs, "red".as_bytes()) {
        proof {
            reveal_strlit("red");
            assert(is_ascii_chars("red"@));
            is_ascii_chars_encode_utf8("red"@);
            assert(bs@ =~= "red".spec_bytes());
            assert(bs@ =~= seq![114u8, 101u8, 100u8]);
        }
        return Some(RGBA(255, 0, 0, 255));
    }
    if bytes_eq(bs, "green".as_bytes()) {
        proof {
            reveal_strlit("green");
            assert(is_ascii_chars("green"@));
            is_ascii_chars_encode_utf8("green"@);
            assert(bs@ =~= "green".spec_bytes());
            assert(bs@ =~= seq![103u8, 114u8, 101u8, 101u8, 110u8]);
        }
        return Some(RGBA(0, 128, 0, 255));
    }
    if bytes_eq(bs, "blue".as_bytes()) {
        proof {
            reveal_strlit("blue");
            assert(is_ascii_chars("blue"@));
            is_ascii_chars_encode_utf8("blue"@);
            assert(bs@ =~= "blue".spec_bytes());
            assert(bs@ =~= seq![98u8, 108u8, 117u8, 101u8]);
        }
        return Some(RGBA(0, 0, 255, 255));
    }
    if bytes_eq(bs, "cyan".as_bytes()) {
        proof {
            reveal_strlit("cyan");
            assert(is_ascii_chars("cyan"@));
            is_ascii_chars_encode_utf8("cyan"@);
            assert(bs@ =~= "cyan".spec_bytes());
            assert(bs@ =~= seq![99u8, 121u8, 97u8, 110u8]);
        }
        return Some(RGBA(0, 255, 255, 255));
    }
    if bytes_eq(bs, "magenta".as_bytes()) {
        proof {
            reveal_strlit("magenta");
            assert(is_ascii_chars("magenta"@));
            is_ascii_chars_encode_utf8("magenta"@);
            assert(bs@ =~= "magenta".spec_bytes());
            assert(bs@ =~= seq![109u8, 97u8, 103u8, 101u8, 110u8, 116u8, 97u8]);
        }
        return Some(RGBA(255, 0, 255, 255));
    }
    if bytes_eq(bs, "yellow".as_bytes()) {
        proof {
            reveal_strlit("yellow");
            assert(is_ascii_chars("yellow"@));
            is_ascii_chars_encode_utf8("yellow"@);
            assert(bs@ =~= "yellow".spec_bytes());
            assert(bs@ =~= seq![121u8, 101u8, 108u8, 108u8, 111u8, 119u8]);
        }
        return Some(RGBA(255, 255, 0, 255));
    }
    if bytes_eq(bs, "gray".as_bytes()) {
        proof {
            reveal_strlit("gray");
            assert(is_ascii_chars("gray"@));
            is_ascii_chars_encode_utf8("gray"@);
            assert(bs@ =~= "gray".spec_bytes());
            assert(bs@ =~= seq![103u8, 114u8, 97u8, 121u8]);
        }
        return Some(RGBA(128, 128, 128, 255));
    }
    if bytes_eq(bs, "orange".as_bytes()) {
        proof {
            reveal_strlit("orange");
            assert(is_ascii_chars("orange"@));
            is_ascii_chars_encode_utf8("orange"@);
            assert(bs@ =~= "orange".spec_bytes());
            assert(bs@ =~= seq![111u8, 114u8, 97u8, 110u8, 103u8, 101u8]);
        }
        return Some(RGBA(255, 165, 0, 255));
    }
    if bytes_eq(bs, "chartreuse".as_bytes()) {
        proof {
            reveal_strlit("chartreuse");
            assert(is_ascii_chars("chartreuse"@));
            is_ascii_chars_encode_utf8("chartreuse"@);
            assert(bs@ =~= "chartreuse".spec_bytes());
            assert(bs@ =~= seq![99u8, 104u8, 97u8, 114u8, 116u8, 114u8, 101u8, 117u8, 115u8, 101u8]);
        }
        return Some(RGBA(127, 255, 0, 255));
    }
    if bytes_eq(bs, "chocolate".as_bytes()) {
        proof {
            reveal_strlit("chocolate");
            assert(is_ascii_chars("chocolate"@));
            is_ascii_chars_encode_utf8("chocolate"@);
            assert(bs@ =~= "chocolate".spec_bytes());
            assert(bs@ =~= seq![99u8, 104u8, 111u8, 99u8, 111u8, 108u8, 97u8, 116u8, 101u8]);
        }
        return Some(RGBA(210, 105, 30, 255));
    }
    proof {
        reveal_strlit("transparent");
        assert(is_ascii_chars("transparent"@));
        is_ascii_chars_encode_utf8("transparent"@);
        assert("transparent".spec_bytes() =~= seq![116u8, 114u8, 97u8, 110u8, 115u8, 112u8, 97u8, 114u8, 101u8, 110u8, 116u8]);
        reveal_strlit("black");
        assert(is_ascii_chars("black"@));
        is_ascii_chars_encode_utf8("black"@);
        assert("black".spec_bytes() =~= seq![98u8, 108u8, 97u8, 99u8, 107u8]);
        reveal_strlit("white");
        assert(is_ascii_chars("white"@));
        is_ascii_chars_encode_utf8("white"@);
        assert("white".spec_bytes() =~= seq![119u8, 104u8, 105u8, 116u8, 101u8]);
        reveal_strlit("red");
        assert(is_ascii_chars("red"@));
        is_ascii_chars_encode_utf8("red"@);
        assert("red".spec_bytes() =~= seq![114u8, 101u8, 100u8]);
        reveal_strlit("green");
        assert(is_ascii_chars("green"@));
        is_ascii_chars_encode_utf8("green"@);
        assert("green".spec_bytes() =~= seq![103u8, 114u8, 101u8, 101u8, 110u8]);
        reveal_strlit("blue");
        assert(is_ascii_chars("blue"@));
        is_ascii_chars_encode_utf8("blue"@);
        assert("blue".spec_bytes() =~= seq![98u8, 108u8, 117u8, 101u8]);
        reveal_strlit("cyan");
        assert(is_ascii_chars("cyan"@));
        is_ascii_chars_encode_utf8("cyan"@);
        assert("cyan".spec_bytes() =~= seq![99u8, 121u8, 97u8, 110u8]);
        reveal_strlit("magenta");
        assert(is_ascii_chars("magenta"@));
        is_ascii_chars_encode_utf8("magenta"@);
        assert("magenta".spec_bytes() =~= seq![109u8, 97u8, 103u8, 101u8, 110u8, 116u8, 97u8]);
        reveal_strlit("yellow");
        assert(is_ascii_chars("yellow"@));
        is_ascii_chars_encode_utf8("yellow"@);
        assert("yellow".spec_bytes() =~= seq![121u8, 101u8, 108u8, 108u8, 111u8, 119u8]);
        reveal_strlit("gray");
        assert(is_ascii_chars("gray"@));
        is_ascii_chars_encode_utf8("gray"@);
        assert("gray".spec_bytes() =~= seq![103u8, 114u8, 97u8, 121u8]);
        reveal_strlit("orange");
        assert(is_ascii_chars("orange"@));
        is_ascii_chars_encode_utf8("orange"@);
        assert("orange".spec_bytes() =~= seq![111u8, 114u8, 97u8, 110u8, 103u8, 101u8]);
        reveal_strlit("chartreuse");
        assert(is_ascii_chars("chartreuse"@));
        is_ascii_chars_encode_utf8("chartreuse"@);
        assert("chartreuse".spec_bytes() =~= seq![99u8, 104u8, 97u8, 114u8, 116u8, 114u8, 101u8, 117u8, 115u8, 101u8]);
        reveal_strlit("chocolate");
        assert(is_ascii_chars("chocolate"@));
        is_ascii_chars_encode_utf8("chocolate"@);
        assert("chocolate".spec_bytes() =~= seq![99u8, 104u8, 111u8, 99u8, 111u8, 108u8, 97u8, 116u8, 101u8]);
    }
    None
}

/// Parses a color argument: a hash sign followed by six or eight hex
/// digits, or a recognized color name.  Anything else is reported as an
/// unrecognized color carrying the argument itself.
pub fn parse_color(name: &str) -> (r: Result<RGBA, ParseError>)
    ensures
        match r {
            Ok(c) => parse_color_spec(name.spec_bytes()) == Some(c),
            Err(e) => {
                &&& parse_color_spec(name.spec_bytes()) is None
                &&& e matches ParseError::UnrecognizedColor(s) && s@ == name@
            },
        },
{
    let bs = name.as_bytes();
    if bs.len() == 7 && bs[0] == 35 {
        match (hex_pair(bs[1], bs[2]), hex_pair(bs[3], bs[4]), hex_pair(bs[5], bs[6])) {
            (Some(r), Some(g), Some(b)) => {
                return Ok(RGBA(r, g, b, 255));
            },
            _ => {
                return Err(ParseError::UnrecognizedColor(name.to_owned()));
            },
        }
    }
    if bs.len() == 9 && bs[0] == 35 {
        match (hex_pair(bs[1], bs[2]), hex_pair(bs[3], bs[4]), hex_pair(bs[5], bs[6]), hex_pair(
            bs[7],
            bs[8],
        )) {
            (Some(r), Some(g), Some(b), Some(a)) => {
                return Ok(RGBA(r, g, b, a));
            },
            _ => {
                return Err(ParseError::UnrecognizedColor(name.to_owned()));
            },
        }
    }
    match named_color(bs) {
        Some(c) => Ok(c),
        None => Err(ParseError::UnrecognizedColor(name.to_owned())),
    }
}

} // verus!
