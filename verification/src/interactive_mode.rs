//! The interactive transmit line: the keyboard-fed send buffer, its two
//! input modes (plain characters or pairs of hex digits), and the line
//! ending appended on send.

use vstd::prelude::*;
use vstd::string::StringExecFns;

verus! {

/// How typed characters fill the send buffer: as themselves, or as hex
/// digit pairs that are packed into bytes on send.
#[derive(Debug, Clone, Copy, PartialEq, Eq, Structural)]
pub enum InputMode {
    Default,
    Hex,
}

/// What is appended to each transmitted line.
#[derive(Debug, Clone, Copy, PartialEq, Eq, Structural)]
pub enum CRLFSetting {
    Off,
    CR,
    LF,
    CRLF,
}

impl InputMode {
    /// The name the input mode is shown under.
    pub fn label(&self) -> (r: String)
        ensures
            *self is Default ==> r@ == "Default"@,
            *self is Hex ==> r@ == "Hex"@,
    {
        match self {
            InputMode::Default => String::from_str("Default"),
            InputMode::Hex => String::from_str("Hex"),
        }
    }
}

impl CRLFSetting {
    /// The name the line-ending setting is shown under: the setting that
    /// appends nothing reads "None".
    pub fn label(&self) -> (r: String)
        ensures
            *self is Off ==> r@ == "None"@,
            *self is CR ==> r@ == "CR"@,
            *self is LF ==> r@ == "LF"@,
            *self is CRLF ==> r@ == "CRLF"@,
    {
        match self {
            CRLFSetting::Off => String::from_str("None"),
            CRLFSetting::CR => String::from_str("CR"),
            CRLFSetting::LF => String::from_str("LF"),
            CRLFSetting::CRLF => String::from_str("CRLF"),
        }
    }
}

/// The cycle the input mode is rotated through.
pub open spec fn next_input_mode(m: InputMode) -> InputMode {
    match m {
        InputMode::Default => InputMode::Hex,
        InputMode::Hex => InputMode::Default,
    }
}

/// The cycle the line-ending setting is rotated through.
pub open spec fn next_crlf_setting(c: CRLFSetting) -> CRLFSetting {
    match c {
        CRLFSetting::Off => CRLFSetting::CR,
        CRLFSetting::CR => CRLFSetting::LF,
        CRLFSetting::LF => CRLFSetting::CRLF,
        CRLFSetting::CRLF => CRLFSetting::Off,
    }
}

/// The bytes a line-ending setting appends.
pub open spec fn crlf_suffix(c: CRLFSetting) -> Seq<u8> {
    match c {
        CRLFSetting::Off => Seq::empty(),
        CRLFSetting::CR => seq![0x0Du8],
        CRLFSetting::LF => seq![0x0Au8],
        CRLFSetting::CRLF => seq![0x0Du8, 0x0Au8],
    }
}

/// Whether the character is an ASCII hex digit.
pub open spec fn is_hex_digit_char(c: char) -> bool {
    (0x30 <= c as int && c as int <= 0x39) || (0x41 <= c as int && c as int <= 0x46) || (0x61
        <= c as int && c as int <= 0x66)
}

/// The low byte of a character's code point, which is how a typed
/// character lands in the byte-valued send buffer.
pub open spec fn char_code_byte(c: char) -> u8 {
    ((c as int) % 256) as u8
}

/// Whether the byte is the code of an ASCII hex digit.
pub open spec fn is_hex_digit_byte(b: u8) -> bool {
    (0x30 <= b && b <= 0x39) || (0x41 <= b && b <= 0x46) || (0x61 <= b && b <= 0x66)
}

/// The value of a hex digit byte.
pub open spec fn hex_val(b: u8) -> int {
    if 0x30 <= b && b <= 0x39 {
        b - 0x30
    } else if 0x41 <= b && b <= 0x46 {
        b - 0x37
    } else {
        b - 0x57
    }
}

/// Whether a hex-mode send buffer can be packed into bytes from position
/// `idx` on: spaces are skipped, and every position that starts a pair
/// must hold two hex digits. A trailing single character is ignored.
pub open spec fn hex_input_wf(s: Seq<u8>, idx: int) -> bool
    decreases s.len() - idx,
{
    if idx >= s.len() - 1 {
        true
    } else if s[idx] == 0x20 {
        hex_input_wf(s, idx + 1)
    } else {
        is_hex_digit_byte(s[idx]) && is_hex_digit_byte(s[idx + 1]) && hex_input_wf(s, idx + 2)
    }
}

/// The bytes a well-formed hex-mode send buffer packs into from position
/// `idx` on.
pub open spec fn hex_parsed(s: Seq<u8>, idx: int) -> Seq<u8>
    decreases s.len() - idx,
{
    if idx >= s.len() - 1 {
        Seq::empty()
    } else if s[idx] == 0x20 {
        hex_parsed(s, idx + 1)
    } else {
        seq![(16 * hex_val(s[idx]) + hex_val(s[idx + 1])) as u8] + hex_parsed(s, idx + 2)
    }
}

/// What one press of the send key transmits: the buffer packed from hex
/// if that input mode is selected, with the line ending appended.
pub open spec fn processed_send_buffer(m: InputMode, c: CRLFSetting, s: Seq<u8>) -> Seq<u8> {
    (if m is Hex {
        hex_parsed(s, 0)
    } else {
        s
    }) + crlf_suffix(c)
}

fn is_hex_char(c: char) -> (r: bool)
    ensures
        r == is_hex_digit_char(c),
{
    let v = c as u32;
    (0x30 <= v && v <= 0x39) || (0x41 <= v && v <= 0x46) || (0x61 <= v && v <= 0x66)
}

fn hex_val_of(b: u8) -> (r: u8)
    requires
        is_hex_digit_byte(b),
    ensures
        r as int == hex_val(b),
        r < 16,
{
    if 0x30 <= b && b <= 0x39 {
        b - 0x30
    } else if 0x41 <= b && b <= 0x46 {
        b - 0x37
    } else {
        b - 0x57
    }
}

/// Checks that a hex-mode send buffer can be packed into bytes: the test
/// a caller runs before asking for the buffer to be sent.
pub fn hex_input_is_wf(buf: &Vec<u8>) -> (r: bool)
    ensures
        r == hex_input_wf(buf@, 0),
{
    let n = buf.len();
    let mut idx: usize = 0;
    let mut ok: bool = true;
    while idx < n && idx + 1 < n && ok
        invariant
            n == buf@.len(),
            idx <= n,
            ok ==> (hex_input_wf(buf@, 0) == hex_input_wf(buf@, idx as int)),
            !ok ==> !hex_input_wf(buf@, 0),
        decreases n - idx + (if ok {
            1int
        } else {
            0int
        }),
    {
        if buf[idx] == 0x20 {
            idx = idx + 1;
        } else if is_hex_byte(buf[idx]) && is_hex_byte(buf[idx + 1]) {
            idx = idx + 2;
        } else {
            ok = false;
        }
    }
    ok
}

fn is_hex_byte(b: u8) -> (r: bool)
    ensures
        r == is_hex_digit_byte(b),
{
    (0x30 <= b && b <= 0x39) || (0x41 <= b && b <= 0x46) || (0x61 <= b && b <= 0x66)
}

/// The state of the interactive transmit line.
pub struct InteractiveMode {
    pub active: bool,
    pub send_buffer: Vec<u8>,
    pub input_mode: InputMode,
    pub crlf: CRLFSetting,
}

impl InteractiveMode {
    pub fn new() -> (r: InteractiveMode)
        ensures
            r.active == false,
            r.send_buffer@ == Seq::<u8>::empty(),
            r.input_mode == InputMode::Default,
            r.crlf == CRLFSetting::Off,
    {
        InteractiveMode {
            active: false,
            send_buffer: Vec::new(),
            input_mode: InputMode::Default,
            crlf: CRLFSetting::Off,
        }
    }

    /// Marks the view active or inactive.
    pub fn set_active_inactive(&mut self, active: bool)
        ensures
            final(self).active == active,
            final(self).send_buffer@ == old(self).send_buffer@,
            final(self).input_mode == old(self).input_mode,
            final(self).crlf == old(self).crlf,
    {
        self.active = active;
    }

    /// Accepts one typed character into the send buffer: in hex input
    /// mode only hex digits and spaces are accepted, in the default mode
    /// every character lands as the low byte of its code point.
    pub fn push_input_char(&mut self, c: char)
        ensures
            final(self).active == old(self).active,
            final(self).input_mode == old(self).input_mode,
            final(self).crlf == old(self).crlf,
            (old(self).input_mode is Hex && !(is_hex_digit_char(c) || c == ' ')) ==> final(self).send_buffer@ == old(self).send_buffer@,
            !(old(self).input_mode is Hex && !(is_hex_digit_char(c) || c == ' ')) ==> final(self).send_buffer@ == old(self).send_buffer@.push(char_code_byte(c)),
    {
        let accept = match self.input_mode {
            InputMode::Hex => is_hex_char(c) || c == ' ',
            InputMode::Default => true,
        };
        if accept {
            let code = c as u32;
            self.send_buffer.push((code % 256) as u8);
        }
    }

    /// Removes the last character of the send buffer, if any.
    pub fn backspace(&mut self)
        ensures
            final(self).active == old(self).active,
            final(self).input_mode == old(self).input_mode,
            final(self).crlf == old(self).crlf,
            old(self).send_buffer@.len() > 0 ==> final(self).send_buffer@ == old(self).send_buffer@.drop_last(),
            old(self).send_buffer@.len() == 0 ==> final(self).send_buffer@ == old(self).send_buffer@,
    {
        let popped = self.send_buffer.pop();
        proof {
            if old(self).send_buffer@.len() > 0 {
                assert(self.send_buffer@ =~= old(self).send_buffer@.drop_last());
            }
        }
    }

    /// In hex input mode, packs the send buffer's hex digit pairs into
    /// bytes, skipping spaces; in the default mode the buffer is left as
    /// it is.
    pub fn apply_input_mode(&mut self)
        requires
            old(self).input_mode is Hex ==> hex_input_wf(old(self).send_buffer@, 0),
        ensures
            final(self).active == old(self).active,
            final(self).input_mode == old(self).input_mode,
            final(self).crlf == old(self).crlf,
            old(self).input_mode is Hex ==> final(self).send_buffer@ == hex_parsed(
                old(self).send_buffer@,
                0,
            ),
            old(self).input_mode is Default ==> final(self).send_buffer@ == old(self).send_buffer@,
    {
        let is_hex_mode = match self.input_mode {
            InputMode::Hex => true,
            InputMode::Default => false,
        };
        if is_hex_mode {
            let n = self.send_buffer.len();
            let mut new_buffer: Vec<u8> = Vec::new();
            let mut idx: usize = 0;
            while idx < n && idx + 1 < n
                invariant
                    n == self.send_buffer@.len(),
                    idx <= n,
                    self.send_buffer@ == old(self).send_buffer@,
                    self.input_mode == old(self).input_mode,
                    self.active == old(self).active,
                    self.crlf == old(self).crlf,
                    hex_input_wf(self.send_buffer@, idx as int),
                    hex_parsed(self.send_buffer@, 0) == new_buffer@ + hex_parsed(
                        self.send_buffer@,
                        idx as int,
                    ),
                decreases n - idx,
            {
                let s = Ghost(self.send_buffer@);
                if self.send_buffer[idx] == 0x20 {
                    proof {
                        assert(hex_parsed(s@, idx as int) == hex_parsed(s@, idx as int + 1));
                    }
                    idx = idx + 1;
                } else {
                    let b0 = hex_val_of(self.send_buffer[idx]);
                    let b1 = hex_val_of(self.send_buffer[idx + 1]);
                    let ghost prev = new_buffer@;
                    new_buffer.push(16 * b0 + b1);
                    proof {
                        assert(hex_parsed(s@, idx as int) == seq![
                            (16 * hex_val(s@[idx as int]) + hex_val(s@[idx as int + 1])) as u8,
                        ] + hex_parsed(s@, idx as int + 2));
                        assert(prev + hex_parsed(s@, idx as int) =~= new_buffer@ + hex_parsed(
                            s@,
                            idx as int + 2,
                        ));
                    }
                    idx = idx + 2;
                }
            }
            proof {
                assert(hex_parsed(self.send_buffer@, idx as int) == Seq::<u8>::empty());
                assert(new_buffer@ =~= new_buffer@ + Seq::<u8>::empty());
            }
            self.send_buffer = new_buffer;
        }
    }

    /// Appends the line-ending bytes called for by the current setting.
    pub fn apply_crlf_setting(&mut self)
        ensures
            final(self).active == old(self).active,
            final(self).input_mode == old(self).input_mode,
            final(self).crlf == old(self).crlf,
            final(self).send_buffer@ == old(self).send_buffer@ + crlf_suffix(old(self).crlf),
    {
        match self.crlf {
            CRLFSetting::CRLF => {
                self.send_buffer.push(0x0D);
                self.send_buffer.push(0x0A);
                proof {
                    assert(self.send_buffer@ =~= old(self).send_buffer@ + crlf_suffix(
                        old(self).crlf,
                    ));
                }
            },
            CRLFSetting::LF => {
                self.send_buffer.push(0x0A);
                proof {
                    assert(self.send_buffer@ =~= old(self).send_buffer@ + crlf_suffix(
                        old(self).crlf,
                    ));
                }
            },
            CRLFSetting::CR => {
                self.send_buffer.push(0x0D);
                proof {
                    assert(self.send_buffer@ =~= old(self).send_buffer@ + crlf_suffix(
                        old(self).crlf,
                    ));
                }
            },
            CRLFSetting::Off => {
                proof {
                    assert(self.send_buffer@ =~= old(self).send_buffer@ + crlf_suffix(
                        old(self).crlf,
                    ));
                }
            },
        }
    }

    /// Takes the send buffer's contents for transmission: the buffer is
    /// processed under the current input mode and line-ending setting,
    /// handed back, and cleared.
    pub fn send_tx_buffer(&mut self) -> (r: Vec<u8>)
        requires
            old(self).input_mode is Hex ==> hex_input_wf(old(self).send_buffer@, 0),
        ensures
            r@ == processed_send_buffer(
                old(self).input_mode,
                old(self).crlf,
                old(self).send_buffer@,
            ),
            final(self).send_buffer@ == Seq::<u8>::empty(),
            final(self).active == old(self).active,
            final(self).input_mode == old(self).input_mode,
            final(self).crlf == old(self).crlf,
    {
        self.apply_input_mode();
        self.apply_crlf_setting();
        let mut out: Vec<u8> = Vec::new();
        core::mem::swap(&mut self.send_buffer, &mut out);
        out
    }

    /// Rotates the input mode through the available modes.
    pub fn rotate_input_mode(&mut self)
        ensures
            final(self).input_mode == next_input_mode(old(self).input_mode),
            final(self).active == old(self).active,
            final(self).send_buffer@ == old(self).send_buffer@,
            final(self).crlf == old(self).crlf,
    {
        match self.input_mode {
            InputMode::Default => self.input_mode = InputMode::Hex,
            InputMode::Hex => self.input_mode = InputMode::Default,
        }
    }

    /// Rotates the line-ending setting through its cycle.
    pub fn rotate_crlf_setting(&mut self)
        ensures
            final(self).crlf == next_crlf_setting(old(self).crlf),
            final(self).active == old(self).active,
            final(self).send_buffer@ == old(self).send_buffer@,
            final(self).input_mode == old(self).input_mode,
    {
        match self.crlf {
            CRLFSetting::Off => self.crlf = CRLFSetting::CR,
            CRLFSetting::CR => self.crlf = CRLFSetting::LF,
            CRLFSetting::LF => self.crlf = CRLFSetting::CRLF,
            CRLFSetting::CRLF => self.crlf = CRLFSetting::Off,
        }
    }
}

} // verus!
