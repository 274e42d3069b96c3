//! Names of the ASCII control characters, used by the display encodings
//! that substitute a glyph like `<NUL>` for an unprintable byte.

use vstd::prelude::*;
use vstd::string::StringExecFns;

verus! {

/// The conventional name of a control byte, or a single space for a byte
/// that has none.
pub open spec fn control_char_name(c: u8) -> Seq<char> {
    if c == 0x00 {
        "NUL"@
    } else if c == 0x01 {
        "SOH"@
    } else if c == 0x02 {
        "STX"@
    } else if c == 0x03 {
        "ETX"@
    } else if c == 0x04 {
        "EOT"@
    } else if c == 0x05 {
        "ENQ"@
    } else if c == 0x06 {
        "ACK"@
    } else if c == 0x07 {
        "BEL"@
    } else if c == 0x08 {
        "BS"@
    } else if c == 0x09 {
        "HT"@
    } else if c == 0x0A {
        "LF"@
    } else if c == 0x0B {
        "VT"@
    } else if c == 0x0C {
        "FF"@
    } else if c == 0x0D {
        "CR"@
    } else if c == 0x0E {
        "SO"@
    } else if c == 0x0F {
        "SI"@
    } else if c == 0x10 {
        "DLE"@
    } else if c == 0x11 {
        "DC1"@
    } else if c == 0x12 {
        "DC2"@
    } else if c == 0x13 {
        "DC3"@
    } else if c == 0x14 {
        "DC4"@
    } else if c == 0x15 {
        "NAK"@
    } else if c == 0x16 {
        "SYN"@
    } else if c == 0x17 {
        "ETB"@
    } else if c == 0x18 {
        "CAN"@
    } else if c == 0x19 {
        "EM"@
    } else if c == 0x1A {
        "SUB"@
    } else if c == 0x1B {
        "ESC"@
    } else if c == 0x1C {
        "FS"@
    } else if c == 0x1D {
        "GS"@
    } else if c == 0x1E {
        "RS"@
    } else if c == 0x1F {
        "US"@
    } else {
        " "@
    }
}

/// The display form of a control byte: its name in angle brackets.
pub open spec fn control_glyph(c: u8) -> Seq<char> {
    "<"@ + control_char_name(c) + ">"@
}

fn control_name(c: u8) -> (r: &'static str)
    ensures
        r@ == control_char_name(c),
{
    match c {
        0x00 => "NUL",
        0x01 => "SOH",
        0x02 => "STX",
        0x03 => "ETX",
        0x04 => "EOT",
        0x05 => "ENQ",
        0x06 => "ACK",
        0x07 => "BEL",
        0x08 => "BS",
        0x09 => "HT",
        0x0A => "LF",
        0x0B => "VT",
        0x0C => "FF",
        0x0D => "CR",
        0x0E => "SO",
        0x0F => "SI",
        0x10 => "DLE",
        0x11 => "DC1",
        0x12 => "DC2",
        0x13 => "DC3",
        0x14 => "DC4",
        0x15 => "NAK",
        0x16 => "SYN",
        0x17 => "ETB",
        0x18 => "CAN",
        0x19 => "EM",
        0x1A => "SUB",
        0x1B => "ESC",
        0x1C => "FS",
        0x1D => "GS",
        0x1E => "RS",
        0x1F => "US",
        _ => " ",
    }
}

/// Convert a control character to its string representation: `<X>`, where
/// `X` is the name of the control character, so a byte with value 0x00
/// gives `"<NUL>"`. A byte that is no control character gives `"< >"`.
pub fn control_char_to_string(c: u8) -> (r: String)
    ensures
        r@ == control_glyph(c),
{
    let mut s = String::from_str("<");
    s.append(control_name(c));
    s.append(">");
    s
}

} // verus!
