//! Display encodings of recorded bytes: hex, ASCII with control-glyph
//! substitution, decimal, and the two mixed printable/escaped variants.
//!
//! The hex encoding fixes three characters per byte, so the mapping from a
//! byte cursor to a display offset is unambiguous and O(1); the functions
//! that cut a hex line around the cursor are specified as exact subranges
//! of that encoding.

use vstd::prelude::*;
use vstd::string::StringExecFns;
use crate::serialtypes::control_char_to_string;
use crate::serialtypes::control_glyph;

verus! {

/// The five display encodings an entry's bytes can be shown in.
#[derive(Debug, Clone, Copy, PartialEq, Eq, Structural)]
pub enum DisplayMode {
    Decimal,
    Hex,
    Ascii,
    MixedHex,
    MixedDec,
}

/// The cycle the display mode is rotated through.
pub open spec fn next_display_mode(m: DisplayMode) -> DisplayMode {
    match m {
        DisplayMode::Decimal => DisplayMode::Hex,
        DisplayMode::Hex => DisplayMode::Ascii,
        DisplayMode::Ascii => DisplayMode::MixedHex,
        DisplayMode::MixedHex => DisplayMode::MixedDec,
        DisplayMode::MixedDec => DisplayMode::Decimal,
    }
}

impl DisplayMode {
    /// The name the mode is shown under.
    pub fn label(&self) -> (r: String)
        ensures
            *self is Decimal ==> r@ == "Decimal"@,
            *self is Hex ==> r@ == "Hex"@,
            *self is Ascii ==> r@ == "Ascii"@,
            *self is MixedHex ==> r@ == "Mixed Hex"@,
            *self is MixedDec ==> r@ == "Mixed Decimal"@,
    {
        match self {
            DisplayMode::Decimal => String::from_str("Decimal"),
            DisplayMode::Hex => String::from_str("Hex"),
            DisplayMode::Ascii => String::from_str("Ascii"),
            DisplayMode::MixedHex => String::from_str("Mixed Hex"),
            DisplayMode::MixedDec => String::from_str("Mixed Decimal"),
        }
    }
}

/// Relies on String::push: appends exactly the given character.
#[verifier::external_body]
pub(crate) fn string_push(s: &mut String, c: char)
    ensures
        final(s)@ == old(s)@.push(c),
{
    s.push(c);
}

/// The upper-case hex digit of a value below 16.
pub open spec fn hex_digit(d: int) -> char {
    if d == 0 {
        '0'
    } else if d == 1 {
        '1'
    } else if d == 2 {
        '2'
    } else if d == 3 {
        '3'
    } else if d == 4 {
        '4'
    } else if d == 5 {
        '5'
    } else if d == 6 {
        '6'
    } else if d == 7 {
        '7'
    } else if d == 8 {
        '8'
    } else if d == 9 {
        '9'
    } else if d == 10 {
        'A'
    } else if d == 11 {
        'B'
    } else if d == 12 {
        'C'
    } else if d == 13 {
        'D'
    } else if d == 14 {
        'E'
    } else {
        'F'
    }
}

fn hex_digit_of(d: u8) -> (c: char)
    requires
        d < 16,
    ensures
        c == hex_digit(d as int),
{
    if d == 0 {
        '0'
    } else if d == 1 {
        '1'
    } else if d == 2 {
        '2'
    } else if d == 3 {
        '3'
    } else if d == 4 {
        '4'
    } else if d == 5 {
        '5'
    } else if d == 6 {
        '6'
    } else if d == 7 {
        '7'
    } else if d == 8 {
        '8'
    } else if d == 9 {
        '9'
    } else if d == 10 {
        'A'
    } else if d == 11 {
        'B'
    } else if d == 12 {
        'C'
    } else if d == 13 {
        'D'
    } else if d == 14 {
        'E'
    } else {
        'F'
    }
}

/// The decimal digit of a value below 10.
pub open spec fn dec_digit(d: int) -> char {
    if d == 0 {
        '0'
    } else if d == 1 {
        '1'
    } else if d == 2 {
        '2'
    } else if d == 3 {
        '3'
    } else if d == 4 {
        '4'
    } else if d == 5 {
        '5'
    } else if d == 6 {
        '6'
    } else if d == 7 {
        '7'
    } else if d == 8 {
        '8'
    } else {
        '9'
    }
}

fn dec_digit_of(d: u8) -> (c: char)
    requires
        d < 10,
    ensures
        c == dec_digit(d as int),
{
    if d == 0 {
        '0'
    } else if d == 1 {
        '1'
    } else if d == 2 {
        '2'
    } else if d == 3 {
        '3'
    } else if d == 4 {
        '4'
    } else if d == 5 {
        '5'
    } else if d == 6 {
        '6'
    } else if d == 7 {
        '7'
    } else if d == 8 {
        '8'
    } else {
        '9'
    }
}

/// The decimal form of one byte, without padding.
pub open spec fn dec_byte(b: u8) -> Seq<char> {
    if b < 10 {
        seq![dec_digit(b as int)]
    } else if b < 100 {
        seq![dec_digit(b as int / 10), dec_digit(b as int % 10)]
    } else {
        seq![dec_digit(b as int / 100), dec_digit((b as int / 10) % 10), dec_digit(b as int % 10)]
    }
}

/// Whether the byte, read as a character, is a control character: the C0
/// range, DEL, or the C1 range.
pub open spec fn is_control_byte(b: u8) -> bool {
    b < 0x20 || b == 0x7F || (0x80 <= b && b < 0xA0)
}

/// Whether the byte is a printable ASCII character.
pub open spec fn is_printable_byte(b: u8) -> bool {
    0x20 <= b && b < 0x7F
}

fn byte_is_control(b: u8) -> (r: bool)
    ensures
        r == is_control_byte(b),
{
    b < 0x20 || b == 0x7F || (0x80 <= b && b < 0xA0)
}

fn byte_is_printable(b: u8) -> (r: bool)
    ensures
        r == is_printable_byte(b),
{
    0x20 <= b && b < 0x7F
}

/// The character at offset `i` of the hex encoding: each byte takes three
/// characters, its two upper-case hex digits and one space.
pub open spec fn hex_char_at(data: Seq<u8>, i: int) -> char {
    let b = data[i / 3] as int;
    if i % 3 == 0 {
        hex_digit(b / 16)
    } else if i % 3 == 1 {
        hex_digit(b % 16)
    } else {
        ' '
    }
}

/// The hex encoding of a byte sequence: exactly three characters per byte,
/// which is what makes cursor-offset math O(1).
pub open spec fn hex_encoding(data: Seq<u8>) -> Seq<char> {
    Seq::new((data.len() * 3) as nat, |i: int| hex_char_at(data, i))
}

/// The display form of one byte under one mode; under the modes that
/// separate bytes with a space the separator is not part of the piece.
pub open spec fn display_piece(mode: DisplayMode, b: u8) -> Seq<char> {
    match mode {
        DisplayMode::Hex => seq![hex_digit(b as int / 16), hex_digit(b as int % 16), ' '],
        DisplayMode::Ascii => if is_control_byte(b) {
            control_glyph(b)
        } else {
            seq![b as char]
        },
        DisplayMode::Decimal => dec_byte(b),
        DisplayMode::MixedHex => if is_printable_byte(b) {
            seq![b as char]
        } else {
            seq![hex_digit(b as int / 16), hex_digit(b as int % 16)]
        },
        DisplayMode::MixedDec => if is_printable_byte(b) {
            seq![b as char]
        } else {
            dec_byte(b)
        },
    }
}

/// What stands between two byte pieces under one mode: a space for the
/// decimal and mixed modes, nothing for hex (its pieces carry their own
/// trailing space) and ASCII.
pub open spec fn mode_separator(mode: DisplayMode) -> Seq<char> {
    match mode {
        DisplayMode::Decimal => seq![' '],
        DisplayMode::MixedHex => seq![' '],
        DisplayMode::MixedDec => seq![' '],
        DisplayMode::Hex => Seq::empty(),
        DisplayMode::Ascii => Seq::empty(),
    }
}

/// The pieces of all bytes under one mode, joined by the mode's separator.
pub open spec fn joined_pieces(mode: DisplayMode, data: Seq<u8>) -> Seq<char>
    decreases data.len(),
{
    if data.len() == 0 {
        Seq::empty()
    } else if data.len() == 1 {
        display_piece(mode, data[0])
    } else {
        display_piece(mode, data[0]) + mode_separator(mode) + joined_pieces(
            mode,
            data.drop_first(),
        )
    }
}

/// Appending one byte appends one separator (if the sequence was
/// non-empty) and the byte's piece.
proof fn lemma_joined_pieces_push(mode: DisplayMode, data: Seq<u8>, b: u8)
    ensures
        data.len() == 0 ==> joined_pieces(mode, data.push(b)) == display_piece(mode, b),
        data.len() > 0 ==> joined_pieces(mode, data.push(b)) == joined_pieces(mode, data)
            + mode_separator(mode) + display_piece(mode, b),
    decreases data.len(),
{
    let s = data.push(b);
    if data.len() == 0 {
        assert(s.len() == 1);
        assert(s[0] == b);
    } else {
        assert(s[0] == data[0]);
        assert(s.drop_first() =~= data.drop_first().push(b));
        lemma_joined_pieces_push(mode, data.drop_first(), b);
        if data.len() == 1 {
            assert(joined_pieces(mode, s) == display_piece(mode, data[0]) + mode_separator(mode)
                + display_piece(mode, b));
        } else {
            assert(joined_pieces(mode, s) == display_piece(mode, data[0]) + mode_separator(mode)
                + (joined_pieces(mode, data.drop_first()) + mode_separator(mode) + display_piece(
                mode,
                b,
            )));
            assert(display_piece(mode, data[0]) + mode_separator(mode) + (joined_pieces(
                mode,
                data.drop_first(),
            ) + mode_separator(mode) + display_piece(mode, b)) =~= (display_piece(mode, data[0])
                + mode_separator(mode) + joined_pieces(mode, data.drop_first()))
                + mode_separator(mode) + display_piece(mode, b));
        }
    }
}

/// The whole encoding of a byte sequence under one mode.
pub open spec fn display_encoding(mode: DisplayMode, data: Seq<u8>) -> Seq<char> {
    if mode is Hex {
        hex_encoding(data)
    } else {
        joined_pieces(mode, data)
    }
}

fn dec_piece(b: u8) -> (r: String)
    ensures
        r@ == dec_byte(b),
{
    let mut s = String::new();
    if b < 10 {
        string_push(&mut s, dec_digit_of(b));
        proof {
            assert(s@ =~= dec_byte(b));
        }
    } else if b < 100 {
        string_push(&mut s, dec_digit_of(b / 10));
        string_push(&mut s, dec_digit_of(b % 10));
        proof {
            assert(s@ =~= dec_byte(b));
        }
    } else {
        string_push(&mut s, dec_digit_of(b / 100));
        string_push(&mut s, dec_digit_of((b / 10) % 10));
        string_push(&mut s, dec_digit_of(b % 10));
        proof {
            assert(s@ =~= dec_byte(b));
        }
    }
    s
}

fn byte_piece(mode: DisplayMode, b: u8) -> (r: String)
    ensures
        r@ == display_piece(mode, b),
{
    match mode {
        DisplayMode::Hex => {
            let mut s = String::new();
            string_push(&mut s, hex_digit_of(b / 16));
            string_push(&mut s, hex_digit_of(b % 16));
            string_push(&mut s, ' ');
            proof {
                assert(s@ =~= display_piece(mode, b));
            }
            s
        },
        DisplayMode::Ascii => {
            if byte_is_control(b) {
                control_char_to_string(b)
            } else {
                let mut s = String::new();
                string_push(&mut s, b as char);
                proof {
                    assert(s@ =~= display_piece(mode, b));
                }
                s
            }
        },
        DisplayMode::Decimal => dec_piece(b),
        DisplayMode::MixedHex => {
            if byte_is_printable(b) {
                let mut s = String::new();
                string_push(&mut s, b as char);
                proof {
                    assert(s@ =~= display_piece(mode, b));
                }
                s
            } else {
                let mut s = String::new();
                string_push(&mut s, hex_digit_of(b / 16));
                string_push(&mut s, hex_digit_of(b % 16));
                proof {
                    assert(s@ =~= display_piece(mode, b));
                }
                s
            }
        },
        DisplayMode::MixedDec => {
            if byte_is_printable(b) {
                let mut s = String::new();
                string_push(&mut s, b as char);
                proof {
                    assert(s@ =~= display_piece(mode, b));
                }
                s
            } else {
                dec_piece(b)
            }
        },
    }
}

/// The hex encoding of the whole byte sequence: three characters per byte.
pub fn format_hex(data: &Vec<u8>) -> (r: String)
    ensures
        r@ == hex_encoding(data@),
        r@.len() == 3 * data@.len(),
{
    let mut r = String::new();
    let mut i: usize = 0;
    while i < data.len()
        invariant
            i <= data@.len(),
            r@ == hex_encoding(data@).subrange(0, 3 * i as int),
        decreases data@.len() - i,
    {
        let b = data[i];
        string_push(&mut r, hex_digit_of(b / 16));
        string_push(&mut r, hex_digit_of(b % 16));
        string_push(&mut r, ' ');
        proof {
            assert(r@ =~= hex_encoding(data@).subrange(0, 3 * (i + 1) as int));
        }
        i = i + 1;
    }
    proof {
        assert(hex_encoding(data@).subrange(0, 3 * data@.len() as int) =~= hex_encoding(data@));
    }
    r
}

/// Formats a byte sequence for display under one mode.
pub fn format_data(mode: DisplayMode, data: &Vec<u8>) -> (r: String)
    ensures
        r@ == display_encoding(mode, data@),
{
    match mode {
        DisplayMode::Hex => format_hex(data),
        _ => {
            let has_sep = match mode {
                DisplayMode::Decimal | DisplayMode::MixedHex | DisplayMode::MixedDec => true,
                _ => false,
            };
            let mut r = String::new();
            let mut i: usize = 0;
            while i < data.len()
                invariant
                    i <= data@.len(),
                    !(mode is Hex),
                    has_sep == (mode is Decimal || mode is MixedHex || mode is MixedDec),
                    r@ == joined_pieces(mode, data@.subrange(0, i as int)),
                decreases data@.len() - i,
            {
                if i > 0 && has_sep {
                    string_push(&mut r, ' ');
                }
                let piece = byte_piece(mode, data[i]);
                r.append(piece.as_str());
                proof {
                    let sub = data@.subrange(0, i as int);
                    lemma_joined_pieces_push(mode, sub, data@[i as int]);
                    assert(sub.push(data@[i as int]) =~= data@.subrange(0, i + 1));
                    if i > 0 {
                        if has_sep {
                            assert(mode_separator(mode) =~= seq![' ']);
                            assert(r@ =~= joined_pieces(mode, sub) + mode_separator(mode)
                                + display_piece(mode, data@[i as int]));
                        } else {
                            assert(mode_separator(mode) =~= Seq::<char>::empty());
                            assert(r@ =~= joined_pieces(mode, sub) + mode_separator(mode)
                                + display_piece(mode, data@[i as int]));
                        }
                    } else {
                        assert(r@ =~= display_piece(mode, data@[i as int]));
                    }
                }
                i = i + 1;
            }
            proof {
                assert(data@.subrange(0, data@.len() as int) =~= data@);
            }
            r
        },
    }
}

/// The characters of the hex encoding between two display offsets, without
/// building the whole encoding.
pub fn hex_range(data: &Vec<u8>, from: usize, to: usize) -> (r: String)
    requires
        from <= to,
        to <= 3 * data@.len(),
    ensures
        r@ == hex_encoding(data@).subrange(from as int, to as int),
{
    let mut r = String::new();
    let mut p = from;
    while p < to
        invariant
            from <= p <= to,
            to <= 3 * data@.len(),
            r@ == hex_encoding(data@).subrange(from as int, p as int),
        decreases to - p,
    {
        let b = data[p / 3];
        let k = p % 3;
        let c = if k == 0 {
            hex_digit_of(b / 16)
        } else if k == 1 {
            hex_digit_of(b % 16)
        } else {
            ' '
        };
        string_push(&mut r, c);
        proof {
            assert(r@ =~= hex_encoding(data@).subrange(from as int, p as int + 1));
        }
        p = p + 1;
    }
    r
}

/// Cuts a hex display line into the part before the cursor, the two digits
/// under the cursor, a highlighted stretch of at most 24 characters after
/// it, and the rest. A cursor at or past the end of the data leaves the
/// whole line before the cursor.
pub fn split_hex_line(data: &Vec<u8>, cursor_pos: usize) -> (r: (String, String, String, String))
    requires
        data@.len() * 3 <= usize::MAX,
    ensures
        ({
            let enc = hex_encoding(data@);
            if cursor_pos < data@.len() {
                let pos = 3 * cursor_pos as int;
                let hl = if enc.len() - pos - 2 > 24 {
                    24int
                } else {
                    enc.len() - pos - 2
                };
                &&& r.0@ == enc.subrange(0, pos)
                &&& r.1@ == enc.subrange(pos, pos + 2)
                &&& r.2@ == enc.subrange(pos + 2, pos + 2 + hl)
                &&& r.3@ == enc.subrange(pos + 2 + hl, enc.len() as int)
            } else {
                &&& r.0@ == enc
                &&& r.1@ == Seq::<char>::empty()
                &&& r.2@ == Seq::<char>::empty()
                &&& r.3@ == Seq::<char>::empty()
            }
        }),
{
    let n = data.len();
    if cursor_pos < n {
        let total = n * 3;
        let pos = cursor_pos * 3;
        let tail = total - pos - 2;
        let hl = if tail > 24 {
            24
        } else {
            tail
        };
        let pre = hex_range(data, 0, pos);
        let cur = hex_range(data, pos, pos + 2);
        let highlight = hex_range(data, pos + 2, pos + 2 + hl);
        let post = hex_range(data, pos + 2 + hl, total);
        (pre, cur, highlight, post)
    } else {
        let pre = format_hex(data);
        (pre, String::new(), String::new(), String::new())
    }
}

} // verus!
