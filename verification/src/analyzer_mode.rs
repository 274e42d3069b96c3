//! The analyzer: cursor-addressed numeric decoding of a recorded byte
//! buffer, and the state of the analyzer view (history, scroll, cursor,
//! endianness).
//!
//! Decoding is a pure function of (buffer, cursor, endianness). Widths are
//! independent: a short buffer simply omits the wider interpretations, and
//! a cursor at or past the end yields none at all.

use vstd::prelude::*;
use vstd::string::StringExecFns;
use crate::display::DisplayMode;
use crate::display::display_encoding;
use crate::display::format_data;
use crate::display::string_push;
use crate::portthread::HistoryEntry;
use crate::portthread::SerialStateMessage;

verus! {

/// The byte-order convention applied when decoding multi-byte integers.
#[derive(Debug, Clone, Copy, PartialEq, Eq, Structural)]
pub enum Endianness {
    Big,
    Little,
}

impl Default for Endianness {
    fn default() -> (r: Endianness)
        ensures
            r == Endianness::Little,
    {
        Endianness::Little
    }
}

impl Endianness {
    /// The name the endianness is shown under.
    pub fn label(&self) -> (r: String)
        ensures
            *self is Big ==> r@ == "Big"@,
            *self is Little ==> r@ == "Little"@,
    {
        match self {
            Endianness::Big => String::from_str("Big"),
            Endianness::Little => String::from_str("Little"),
        }
    }
}

/// The little-endian value of `n` bytes of `s` starting at `i`: the first
/// byte is the least significant.
pub open spec fn word_le(s: Seq<u8>, i: int, n: nat) -> nat
    decreases n,
{
    if n == 0 {
        0
    } else {
        s[i] as nat + 256 * word_le(s, i + 1, (n - 1) as nat)
    }
}

/// The big-endian value of `n` bytes of `s` starting at `i`: the last byte
/// is the least significant.
pub open spec fn word_be(s: Seq<u8>, i: int, n: nat) -> nat
    decreases n,
{
    if n == 0 {
        0
    } else {
        256 * word_be(s, i, (n - 1) as nat) + s[i + n - 1] as nat
    }
}

/// The value of `n` bytes of `s` at `i` under the selected byte order.
pub open spec fn word_at(s: Seq<u8>, i: int, n: nat, e: Endianness) -> nat {
    if e is Big {
        word_be(s, i, n)
    } else {
        word_le(s, i, n)
    }
}

/// The two's-complement reading of a 16-bit value.
pub open spec fn signed16(v: nat) -> int {
    if v < 0x8000 {
        v as int
    } else {
        v as int - 0x10000
    }
}

/// The two's-complement reading of a 32-bit value.
pub open spec fn signed32(v: nat) -> int {
    if v < 0x80000000 {
        v as int
    } else {
        v as int - 0x100000000
    }
}

/// The two's-complement reading of a 64-bit value.
pub open spec fn signed64(v: nat) -> int {
    if v < 0x8000000000000000 {
        v as int
    } else {
        v as int - 0x10000000000000000
    }
}

fn read_u16(data: &Vec<u8>, pos: usize, endianness: Endianness) -> (r: u16)
    requires
        pos + 2 <= data@.len(),
    ensures
        r as nat == word_at(data@, pos as int, 2, endianness),
{
    let n = data.len();
    proof {
        assert(pos + 2 <= n);
    }
    let b0 = data[pos] as u16;
    let b1 = data[pos + 1] as u16;
    proof {
        let s = data@;
        let i = pos as int;
        assert(word_le(s, i + 2, 0) == 0);
        assert(word_le(s, i + 1, 1) == s[i + 1] as nat + 256 * word_le(s, i + 2, 0));
        assert(word_le(s, i, 2) == s[i] as nat + 256 * word_le(s, i + 1, 1));
        assert(word_be(s, i, 0) == 0);
        assert(word_be(s, i, 1) == 256 * word_be(s, i, 0) + s[i] as nat);
        assert(word_be(s, i, 2) == 256 * word_be(s, i, 1) + s[i + 1] as nat);
    }
    match endianness {
        Endianness::Big => b0 * 256 + b1,
        Endianness::Little => b1 * 256 + b0,
    }
}

fn read_u32(data: &Vec<u8>, pos: usize, endianness: Endianness) -> (r: u32)
    requires
        pos + 4 <= data@.len(),
    ensures
        r as nat == word_at(data@, pos as int, 4, endianness),
{
    let n = data.len();
    proof {
        assert(pos + 4 <= n);
    }
    let b0 = data[pos] as u32;
    let b1 = data[pos + 1] as u32;
    let b2 = data[pos + 2] as u32;
    let b3 = data[pos + 3] as u32;
    proof {
        let s = data@;
        let i = pos as int;
        assert(word_le(s, i + 4, 0) == 0);
        assert(word_le(s, i + 3, 1) == s[i + 3] as nat + 256 * word_le(s, i + 4, 0));
        assert(word_le(s, i + 2, 2) == s[i + 2] as nat + 256 * word_le(s, i + 3, 1));
        assert(word_le(s, i + 1, 3) == s[i + 1] as nat + 256 * word_le(s, i + 2, 2));
        assert(word_le(s, i, 4) == s[i] as nat + 256 * word_le(s, i + 1, 3));
        assert(word_be(s, i, 0) == 0);
        assert(word_be(s, i, 1) == 256 * word_be(s, i, 0) + s[i] as nat);
        assert(word_be(s, i, 2) == 256 * word_be(s, i, 1) + s[i + 1] as nat);
        assert(word_be(s, i, 3) == 256 * word_be(s, i, 2) + s[i + 2] as nat);
        assert(word_be(s, i, 4) == 256 * word_be(s, i, 3) + s[i + 3] as nat);
    }
    match endianness {
        Endianness::Big => ((b0 * 256 + b1) * 256 + b2) * 256 + b3,
        Endianness::Little => ((b3 * 256 + b2) * 256 + b1) * 256 + b0,
    }
}

fn read_u64_le(data: &Vec<u8>, pos: usize) -> (r: u64)
    requires
        pos + 8 <= data@.len(),
    ensures
        r as nat == word_le(data@, pos as int, 8),
{
    let n = data.len();
    proof {
        assert(pos + 8 <= n);
    }
    let b0 = data[pos] as u64;
    let b1 = data[pos + 1] as u64;
    let b2 = data[pos + 2] as u64;
    let b3 = data[pos + 3] as u64;
    let b4 = data[pos + 4] as u64;
    let b5 = data[pos + 5] as u64;
    let b6 = data[pos + 6] as u64;
    let b7 = data[pos + 7] as u64;
    proof {
        let s = data@;
        let i = pos as int;
        assert(word_le(s, i + 8, 0) == 0);
        assert(word_le(s, i + 7, 1) == s[i + 7] as nat + 256 * word_le(s, i + 8, 0));
        assert(word_le(s, i + 6, 2) == s[i + 6] as nat + 256 * word_le(s, i + 7, 1));
        assert(word_le(s, i + 5, 3) == s[i + 5] as nat + 256 * word_le(s, i + 6, 2));
        assert(word_le(s, i + 4, 4) == s[i + 4] as nat + 256 * word_le(s, i + 5, 3));
        assert(word_le(s, i + 3, 5) == s[i + 3] as nat + 256 * word_le(s, i + 4, 4));
        assert(word_le(s, i + 2, 6) == s[i + 2] as nat + 256 * word_le(s, i + 3, 5));
        assert(word_le(s, i + 1, 7) == s[i + 1] as nat + 256 * word_le(s, i + 2, 6));
        assert(word_le(s, i, 8) == s[i] as nat + 256 * word_le(s, i + 1, 7));
    }
    ((((((b7 * 256 + b6) * 256 + b5) * 256 + b4) * 256 + b3) * 256 + b2) * 256 + b1) * 256 + b0
}

fn to_i16(v: u16) -> (r: i16)
    ensures
        r as int == signed16(v as nat),
{
    if v < 0x8000 {
        v as i16
    } else {
        (v - 0x8000) as i16 - 0x7FFF - 1
    }
}

fn to_i32(v: u32) -> (r: i32)
    ensures
        r as int == signed32(v as nat),
{
    if v < 0x80000000 {
        v as i32
    } else {
        (v - 0x80000000) as i32 - 0x7FFFFFFF - 1
    }
}

fn to_i64(v: u64) -> (r: i64)
    ensures
        r as int == signed64(v as nat),
{
    if v < 0x8000000000000000 {
        v as i64
    } else {
        (v - 0x8000000000000000) as i64 - 0x7FFFFFFFFFFFFFFF - 1
    }
}

/// One numeric interpretation of the bytes at the cursor. The float widths
/// carry the IEEE-754 bit pattern; turning the pattern into a rendered
/// number is the caller's concern.
#[derive(Debug, Clone, Copy, PartialEq, Eq, Structural)]
pub enum DecodedValue {
    Binary(u8),
    Unsigned8(u8),
    Unsigned16(u16),
    Signed16(i16),
    Unsigned32(u32),
    Signed32(i32),
    Float32Bits(u32),
    Unsigned64(u64),
    Signed64(i64),
    Float64Bits(u64),
}

/// The unsigned 16-bit interpretation at `i` under the selected order.
pub open spec fn u16_interp(s: Seq<u8>, i: int, e: Endianness) -> u16 {
    word_at(s, i, 2, e) as u16
}

/// The signed 16-bit interpretation at `i` under the selected order.
pub open spec fn i16_interp(s: Seq<u8>, i: int, e: Endianness) -> i16 {
    signed16(word_at(s, i, 2, e)) as i16
}

/// The unsigned 32-bit interpretation at `i` under the selected order.
pub open spec fn u32_interp(s: Seq<u8>, i: int, e: Endianness) -> u32 {
    word_at(s, i, 4, e) as u32
}

/// The signed 32-bit interpretation at `i` under the selected order.
pub open spec fn i32_interp(s: Seq<u8>, i: int, e: Endianness) -> i32 {
    signed32(word_at(s, i, 4, e)) as i32
}

/// The unsigned 64-bit interpretation at `i`. The 64-bit widths read the
/// bytes in little-endian order whatever the selected endianness; this
/// keeps the observed behavior of the view rather than guessing an intent.
pub open spec fn u64_interp(s: Seq<u8>, i: int) -> u64 {
    word_le(s, i, 8) as u64
}

/// The signed 64-bit interpretation at `i`, in fixed little-endian order.
pub open spec fn i64_interp(s: Seq<u8>, i: int) -> i64 {
    signed64(word_le(s, i, 8)) as i64
}

/// Decodes the bytes at the cursor into every interpretation the buffer is
/// long enough for: with at least one byte remaining the 8-bit tier (the
/// binary representation and the unsigned value), with at least two the
/// 16-bit pair, with at least four the 32-bit trio, with at least eight
/// the 64-bit trio. A cursor at or past the end yields nothing, and the
/// caller suppresses the panel.
pub fn decode(data: &Vec<u8>, cursor: usize, endianness: Endianness) -> (r: Vec<DecodedValue>)
    ensures
        cursor >= data@.len() ==> r@.len() == 0,
        cursor < data@.len() ==> {
            let s = data@;
            let i = cursor as int;
            let rem = s.len() - i;
            &&& r@.len() == (if rem >= 8 {
                10int
            } else if rem >= 4 {
                7int
            } else if rem >= 2 {
                4int
            } else {
                2int
            })
            &&& r@[0] == DecodedValue::Binary(s[i])
            &&& r@[1] == DecodedValue::Unsigned8(s[i])
            &&& rem >= 2 ==> r@[2] == DecodedValue::Unsigned16(u16_interp(s, i, endianness))
            &&& rem >= 2 ==> r@[3] == DecodedValue::Signed16(i16_interp(s, i, endianness))
            &&& rem >= 4 ==> r@[4] == DecodedValue::Unsigned32(u32_interp(s, i, endianness))
            &&& rem >= 4 ==> r@[5] == DecodedValue::Signed32(i32_interp(s, i, endianness))
            &&& rem >= 4 ==> r@[6] == DecodedValue::Float32Bits(u32_interp(s, i, endianness))
            &&& rem >= 8 ==> r@[7] == DecodedValue::Unsigned64(u64_interp(s, i))
            &&& rem >= 8 ==> r@[8] == DecodedValue::Signed64(i64_interp(s, i))
            &&& rem >= 8 ==> r@[9] == DecodedValue::Float64Bits(u64_interp(s, i))
        },
{
    let n = data.len();
    let mut items: Vec<DecodedValue> = Vec::new();
    if cursor >= n {
        return items;
    }
    let b = data[cursor];
    items.push(DecodedValue::Binary(b));
    items.push(DecodedValue::Unsigned8(b));
    let rem = n - cursor;
    if rem >= 2 {
        let v = read_u16(data, cursor, endianness);
        items.push(DecodedValue::Unsigned16(v));
        items.push(DecodedValue::Signed16(to_i16(v)));
    }
    if rem >= 4 {
        let v = read_u32(data, cursor, endianness);
        items.push(DecodedValue::Unsigned32(v));
        items.push(DecodedValue::Signed32(to_i32(v)));
        items.push(DecodedValue::Float32Bits(v));
    }
    if rem >= 8 {
        let v = read_u64_le(data, cursor);
        items.push(DecodedValue::Unsigned64(v));
        items.push(DecodedValue::Signed64(to_i64(v)));
        items.push(DecodedValue::Float64Bits(v));
    }
    items
}

/// The weight of the bit at display position `i`, most significant first.
pub open spec fn bit_weight(i: int) -> int {
    if i == 0 {
        128
    } else if i == 1 {
        64
    } else if i == 2 {
        32
    } else if i == 3 {
        16
    } else if i == 4 {
        8
    } else if i == 5 {
        4
    } else if i == 6 {
        2
    } else {
        1
    }
}

/// The binary digit of `b` at display position `i`, most significant
/// first.
pub open spec fn bit_char(b: u8, i: int) -> char {
    if (b as int / bit_weight(i)) % 2 == 1 {
        '1'
    } else {
        '0'
    }
}

/// The eight binary digits of a byte, most significant first.
pub open spec fn binary_encoding(b: u8) -> Seq<char> {
    Seq::new(8, |i: int| bit_char(b, i))
}

/// The binary-digit representation of one byte, most significant bit
/// first.
pub fn binary_string(b: u8) -> (r: String)
    ensures
        r@ == binary_encoding(b),
{
    let mut s = String::new();
    string_push(&mut s, if (b / 128) % 2 == 1 { '1' } else { '0' });
    string_push(&mut s, if (b / 64) % 2 == 1 { '1' } else { '0' });
    string_push(&mut s, if (b / 32) % 2 == 1 { '1' } else { '0' });
    string_push(&mut s, if (b / 16) % 2 == 1 { '1' } else { '0' });
    string_push(&mut s, if (b / 8) % 2 == 1 { '1' } else { '0' });
    string_push(&mut s, if (b / 4) % 2 == 1 { '1' } else { '0' });
    string_push(&mut s, if (b / 2) % 2 == 1 { '1' } else { '0' });
    string_push(&mut s, if b % 2 == 1 { '1' } else { '0' });
    proof {
        assert(s@ =~= binary_encoding(b));
    }
    s
}

/// The state of the analyzer view: the retained event history, the scroll
/// offset of the list, the cursor (line and byte offset), the selected
/// endianness and the display mode in effect.
pub struct AnalyzerMode {
    pub active: bool,
    pub display_history: Vec<SerialStateMessage>,
    pub scroll_offset: u32,
    pub analyzer_cursor_line: usize,
    pub analyzer_cursor_pos: usize,
    pub analyzer_endianness: Endianness,
    pub active_display_mode: DisplayMode,
}

impl AnalyzerMode {
    pub fn new() -> (r: AnalyzerMode)
        ensures
            r.active == false,
            r.display_history@ == Seq::<SerialStateMessage>::empty(),
            r.scroll_offset == 0,
            r.analyzer_cursor_line == 0,
            r.analyzer_cursor_pos == 0,
            r.analyzer_endianness == Endianness::Little,
            r.active_display_mode == DisplayMode::Hex,
    {
        AnalyzerMode {
            active: false,
            display_history: Vec::new(),
            scroll_offset: 0,
            analyzer_cursor_line: 0,
            analyzer_cursor_pos: 0,
            analyzer_endianness: Endianness::Little,
            active_display_mode: DisplayMode::Hex,
        }
    }

    /// Appends one line of error text to the display history.
    pub fn add_to_history(&mut self, arg: &str)
        ensures
            (exists|m: String|
                m@ == arg@ && final(self).display_history@ == old(self).display_history@.push(SerialStateMessage::ErrorEvent(m))),
            final(self).active == old(self).active,
            final(self).scroll_offset == old(self).scroll_offset,
            final(self).analyzer_cursor_line == old(self).analyzer_cursor_line,
            final(self).analyzer_cursor_pos == old(self).analyzer_cursor_pos,
            final(self).analyzer_endianness == old(self).analyzer_endianness,
            final(self).active_display_mode == old(self).active_display_mode,
    {
        let msg = String::from_str(arg);
        self.display_history.push(SerialStateMessage::ErrorEvent(msg));
    }

    /// Marks the view active or inactive.
    pub fn set_active_inactive(&mut self, active: bool)
        ensures
            final(self).active == active,
            final(self).display_history@ == old(self).display_history@,
            final(self).scroll_offset == old(self).scroll_offset,
            final(self).analyzer_cursor_line == old(self).analyzer_cursor_line,
            final(self).analyzer_cursor_pos == old(self).analyzer_cursor_pos,
            final(self).analyzer_endianness == old(self).analyzer_endianness,
            final(self).active_display_mode == old(self).active_display_mode,
    {
        self.active = active;
    }

    /// Scroll up in the display history, moving the top line down by one;
    /// the offset never wraps.
    pub fn scroll_up(&mut self)
        ensures
            final(self).scroll_offset as int == (if old(self).scroll_offset == u32::MAX {
                u32::MAX as int
            } else {
                old(self).scroll_offset + 1
            }),
            final(self).active == old(self).active,
            final(self).display_history@ == old(self).display_history@,
            final(self).analyzer_cursor_line == old(self).analyzer_cursor_line,
            final(self).analyzer_cursor_pos == old(self).analyzer_cursor_pos,
            final(self).analyzer_endianness == old(self).analyzer_endianness,
            final(self).active_display_mode == old(self).active_display_mode,
    {
        if self.scroll_offset != u32::MAX {
            self.scroll_offset = self.scroll_offset + 1;
        }
    }

    /// Scroll down in the display history, moving the top line up by one;
    /// the offset stops at zero.
    pub fn scroll_down(&mut self)
        ensures
            final(self).scroll_offset as int == (if old(self).scroll_offset == 0 {
                0
            } else {
                old(self).scroll_offset - 1
            }),
            final(self).active == old(self).active,
            final(self).display_history@ == old(self).display_history@,
            final(self).analyzer_cursor_line == old(self).analyzer_cursor_line,
            final(self).analyzer_cursor_pos == old(self).analyzer_cursor_pos,
            final(self).analyzer_endianness == old(self).analyzer_endianness,
            final(self).active_display_mode == old(self).active_display_mode,
    {
        if self.scroll_offset != 0 {
            self.scroll_offset = self.scroll_offset - 1;
        }
    }

    /// Move the cursor one line up in the history; the line never wraps.
    pub fn scroll_analyzer_cursor_up(&mut self)
        ensures
            final(self).analyzer_cursor_line as int == (if old(self).analyzer_cursor_line
                == usize::MAX {
                usize::MAX as int
            } else {
                old(self).analyzer_cursor_line + 1
            }),
            final(self).active == old(self).active,
            final(self).display_history@ == old(self).display_history@,
            final(self).scroll_offset == old(self).scroll_offset,
            final(self).analyzer_cursor_pos == old(self).analyzer_cursor_pos,
            final(self).analyzer_endianness == old(self).analyzer_endianness,
            final(self).active_display_mode == old(self).active_display_mode,
    {
        if self.analyzer_cursor_line != usize::MAX {
            self.analyzer_cursor_line = self.analyzer_cursor_line + 1;
        }
    }

    /// Move the cursor one line down in the history; the line stops at
    /// zero.
    pub fn scroll_analyzer_cursor_down(&mut self)
        ensures
            final(self).analyzer_cursor_line as int == (if old(self).analyzer_cursor_line == 0 {
                0
            } else {
                old(self).analyzer_cursor_line - 1
            }),
            final(self).active == old(self).active,
            final(self).display_history@ == old(self).display_history@,
            final(self).scroll_offset == old(self).scroll_offset,
            final(self).analyzer_cursor_pos == old(self).analyzer_cursor_pos,
            final(self).analyzer_endianness == old(self).analyzer_endianness,
            final(self).active_display_mode == old(self).active_display_mode,
    {
        if self.analyzer_cursor_line != 0 {
            self.analyzer_cursor_line = self.analyzer_cursor_line - 1;
        }
    }

    /// Move the analyzer cursor one byte to the left; at the left edge
    /// this has no effect.
    pub fn cursor_left(&mut self)
        ensures
            final(self).analyzer_cursor_pos as int == (if old(self).analyzer_cursor_pos == 0 {
                0
            } else {
                old(self).analyzer_cursor_pos - 1
            }),
            final(self).active == old(self).active,
            final(self).display_history@ == old(self).display_history@,
            final(self).scroll_offset == old(self).scroll_offset,
            final(self).analyzer_cursor_line == old(self).analyzer_cursor_line,
            final(self).analyzer_endianness == old(self).analyzer_endianness,
            final(self).active_display_mode == old(self).active_display_mode,
    {
        if self.analyzer_cursor_pos != 0 {
            self.analyzer_cursor_pos = self.analyzer_cursor_pos - 1;
        }
    }

    /// Move the analyzer cursor one byte to the right; the offset never
    /// wraps.
    pub fn cursor_right(&mut self)
        ensures
            final(self).analyzer_cursor_pos as int == (if old(self).analyzer_cursor_pos
                == usize::MAX {
                usize::MAX as int
            } else {
                old(self).analyzer_cursor_pos + 1
            }),
            final(self).active == old(self).active,
            final(self).display_history@ == old(self).display_history@,
            final(self).scroll_offset == old(self).scroll_offset,
            final(self).analyzer_cursor_line == old(self).analyzer_cursor_line,
            final(self).analyzer_endianness == old(self).analyzer_endianness,
            final(self).active_display_mode == old(self).active_display_mode,
    {
        if self.analyzer_cursor_pos != usize::MAX {
            self.analyzer_cursor_pos = self.analyzer_cursor_pos + 1;
        }
    }

    /// Toggle between big- and little-endian decoding.
    pub fn rotate_analyzer_endianness(&mut self)
        ensures
            final(self).analyzer_endianness == (if old(self).analyzer_endianness is Big {
                Endianness::Little
            } else {
                Endianness::Big
            }),
            final(self).active == old(self).active,
            final(self).display_history@ == old(self).display_history@,
            final(self).scroll_offset == old(self).scroll_offset,
            final(self).analyzer_cursor_line == old(self).analyzer_cursor_line,
            final(self).analyzer_cursor_pos == old(self).analyzer_cursor_pos,
            final(self).active_display_mode == old(self).active_display_mode,
    {
        match self.analyzer_endianness {
            Endianness::Big => self.analyzer_endianness = Endianness::Little,
            Endianness::Little => self.analyzer_endianness = Endianness::Big,
        }
    }

    /// Appends the events drained from the coordinator, in order, to the
    /// display history, and takes over the display mode in effect.
    pub fn update_data(&mut self, incoming: Vec<SerialStateMessage>, display_mode: DisplayMode)
        ensures
            final(self).display_history@ == old(self).display_history@ + incoming@,
            final(self).active_display_mode == display_mode,
            final(self).active == old(self).active,
            final(self).scroll_offset == old(self).scroll_offset,
            final(self).analyzer_cursor_line == old(self).analyzer_cursor_line,
            final(self).analyzer_cursor_pos == old(self).analyzer_cursor_pos,
            final(self).analyzer_endianness == old(self).analyzer_endianness,
    {
        let mut incoming = incoming;
        self.display_history.append(&mut incoming);
        self.active_display_mode = display_mode;
    }

    /// Clears the display history.
    pub fn clear_history(&mut self)
        ensures
            final(self).display_history@ == Seq::<SerialStateMessage>::empty(),
            final(self).active == old(self).active,
            final(self).scroll_offset == old(self).scroll_offset,
            final(self).analyzer_cursor_line == old(self).analyzer_cursor_line,
            final(self).analyzer_cursor_pos == old(self).analyzer_cursor_pos,
            final(self).analyzer_endianness == old(self).analyzer_endianness,
            final(self).active_display_mode == old(self).active_display_mode,
    {
        self.display_history.clear();
    }

    /// Formats an entry's bytes under the display mode in effect.
    pub fn format_data_for_display(&self, data: &Vec<u8>) -> (r: String)
        ensures
            r@ == display_encoding(self.active_display_mode, data@),
    {
        format_data(self.active_display_mode, data)
    }

    /// The bytes of the data entry under the analyzer cursor: the history
    /// is shown newest first, the scroll offset hides that many newest
    /// entries, at most `max_rows` entries are visible, and the cursor
    /// line counts only data entries among them.
    pub fn cursor_line_data(&self, max_rows: usize) -> (r: Option<Vec<u8>>)
        ensures
            ({
                let sel = nth_data_event(
                    visible_window(
                        self.display_history@,
                        self.scroll_offset as int,
                        max_rows as int,
                    ),
                    self.analyzer_cursor_line as int,
                );
                &&& r is Some <==> sel is Some
                &&& r is Some ==> r->0@ == sel->0.data@
            }),
    {
        let n = self.display_history.len();
        let scroll = self.scroll_offset as usize;
        let ghost window = visible_window(
            self.display_history@,
            self.scroll_offset as int,
            max_rows as int,
        );
        let mut i: usize = 0;
        let mut count: usize = 0;
        proof {
            assert(window.skip(0) =~= window);
        }
        while i < max_rows && scroll + i < n
            invariant
                n == self.display_history@.len(),
                scroll == self.scroll_offset as int,
                window == visible_window(
                    self.display_history@,
                    self.scroll_offset as int,
                    max_rows as int,
                ),
                i <= max_rows,
                scroll + i <= n || i == 0,
                i <= window.len(),
                count <= self.analyzer_cursor_line,
                nth_data_event(window, self.analyzer_cursor_line as int) == nth_data_event(
                    window.skip(i as int),
                    self.analyzer_cursor_line - count,
                ),
            decreases max_rows - i,
        {
            proof {
                assert(window.len() == (if max_rows <= n - scroll {
                    max_rows as int
                } else {
                    n - scroll
                }));
                assert(i < window.len());
                assert(window.skip(i as int).len() > 0);
                assert(window.skip(i as int)[0] == window[i as int]);
                assert(window[i as int] == self.display_history@[n - 1 - scroll - i]);
                assert(window.skip(i as int).drop_first() =~= window.skip(i as int + 1));
            }
            let idx = n - 1 - scroll - i;
            match &self.display_history[idx] {
                SerialStateMessage::DataEvent(entry) => {
                    if count == self.analyzer_cursor_line {
                        return Some(entry.clone().data);
                    }
                    count = count + 1;
                },
                _ => {},
            }
            i = i + 1;
        }
        proof {
            assert(window.skip(i as int).len() == 0);
            assert(window.skip(i as int) =~= Seq::<SerialStateMessage>::empty());
        }
        None
    }
}

/// The history entries visible in a list of `rows` lines that shows the
/// newest entry first and hides the `scroll` newest ones.
pub open spec fn visible_window(
    history: Seq<SerialStateMessage>,
    scroll: int,
    rows: int,
) -> Seq<SerialStateMessage> {
    let avail = history.len() - scroll;
    let count = if avail < 0 {
        0
    } else if rows <= avail {
        rows
    } else {
        avail
    };
    Seq::new(count as nat, |j: int| history[history.len() - 1 - scroll - j])
}

/// The `k`-th data entry of a sequence of events, counting from zero and
/// passing over the events that carry no data.
pub open spec fn nth_data_event(s: Seq<SerialStateMessage>, k: int) -> Option<HistoryEntry>
    decreases s.len(),
{
    if s.len() == 0 {
        Option::None
    } else {
        match s[0] {
            SerialStateMessage::DataEvent(e) => if k == 0 {
                Option::Some(e)
            } else {
                nth_data_event(s.drop_first(), k - 1)
            },
            _ => nth_data_event(s.drop_first(), k),
        }
    }
}

} // verus!
