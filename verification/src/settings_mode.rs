//! The connection settings: port name, baud rate, stop bits, parity and
//! data bits, plus the display mode in effect. Each setting is rotated
//! through a fixed list of values; opening a connection from these
//! settings is I/O and happens outside this crate.

use vstd::prelude::*;
use vstd::string::StringExecFns;
use crate::display::DisplayMode;
use crate::display::next_display_mode;

verus! {

/// The next baud rate in the fixed list 9600, 19200, 38400, 57600,
/// 115200, 230400, 460800, 921600; a rate outside the list rotates to the
/// list's second entry, as rotating from its first does.
pub open spec fn next_baud(b: u32) -> u32 {
    if b == 9600 {
        19200
    } else if b == 19200 {
        38400
    } else if b == 38400 {
        57600
    } else if b == 57600 {
        115200
    } else if b == 115200 {
        230400
    } else if b == 230400 {
        460800
    } else if b == 460800 {
        921600
    } else if b == 921600 {
        9600
    } else {
        19200
    }
}

/// The next stop-bit count in the fixed list 1, 2, 3.
pub open spec fn next_stopbits(b: u8) -> u8 {
    if b == 1 {
        2
    } else if b == 2 {
        3
    } else if b == 3 {
        1
    } else {
        2
    }
}

/// The next data-bit count in the fixed list 5, 6, 7, 8, 9.
pub open spec fn next_databits(b: u8) -> u8 {
    if b == 5 {
        6
    } else if b == 6 {
        7
    } else if b == 7 {
        8
    } else if b == 8 {
        9
    } else if b == 9 {
        5
    } else {
        6
    }
}

/// The next parity name in the fixed list None, Odd, Even.
pub open spec fn next_parity(p: Seq<char>) -> Seq<char> {
    if p == "None"@ {
        "Odd"@
    } else if p == "Odd"@ {
        "Even"@
    } else if p == "Even"@ {
        "None"@
    } else {
        "Odd"@
    }
}

/// The smallest index at or after `idx` whose port name reads `p`, or -1
/// if there is none.
pub open spec fn find_port(ports: Seq<String>, p: Seq<char>, idx: int) -> int
    decreases ports.len() - idx,
{
    if idx < 0 || idx >= ports.len() {
        -1
    } else if ports[idx]@ == p {
        idx
    } else {
        find_port(ports, p, idx + 1)
    }
}

/// The connection settings and the display mode in effect.
pub struct SettingsMode {
    pub port: String,
    pub baud: u32,
    pub stopbits: u8,
    pub parity: String,
    pub databits: u8,
    pub display_mode: DisplayMode,
    pub active: bool,
}

impl SettingsMode {
    /// The defaults: the first entry of each value list, 8 data bits, hex
    /// display, and no port selected yet.
    pub fn new() -> (r: SettingsMode)
        ensures
            r.port@ == Seq::<char>::empty(),
            r.baud == 9600,
            r.stopbits == 1,
            r.parity@ == "None"@,
            r.databits == 8,
            r.display_mode == DisplayMode::Hex,
            r.active == false,
    {
        SettingsMode {
            port: String::new(),
            baud: 9600,
            stopbits: 1,
            parity: String::from_str("None"),
            databits: 8,
            display_mode: DisplayMode::Hex,
            active: false,
        }
    }

    /// Settings read back from persisted values.
    pub fn with_values(
        port: String,
        baud: u32,
        stopbits: u8,
        parity: String,
        databits: u8,
        display_mode: DisplayMode,
    ) -> (r: SettingsMode)
        ensures
            r.port@ == port@,
            r.baud == baud,
            r.stopbits == stopbits,
            r.parity@ == parity@,
            r.databits == databits,
            r.display_mode == display_mode,
            r.active == false,
    {
        SettingsMode { port, baud, stopbits, parity, databits, display_mode, active: false }
    }

    /// Marks the view active or inactive.
    pub fn set_active_inactive(&mut self, active: bool)
        ensures
            final(self).active == active,
            final(self).port@ == old(self).port@,
            final(self).baud == old(self).baud,
            final(self).stopbits == old(self).stopbits,
            final(self).parity@ == old(self).parity@,
            final(self).databits == old(self).databits,
            final(self).display_mode == old(self).display_mode,
    {
        self.active = active;
    }

    /// The display mode in effect.
    pub fn get_display_mode(&self) -> (r: DisplayMode)
        ensures
            r == self.display_mode,
    {
        self.display_mode
    }

    /// Rotates the baud rate to the next one in the list.
    pub fn rotate_baudrate(&mut self)
        ensures
            final(self).baud == next_baud(old(self).baud),
            final(self).port@ == old(self).port@,
            final(self).stopbits == old(self).stopbits,
            final(self).parity@ == old(self).parity@,
            final(self).databits == old(self).databits,
            final(self).display_mode == old(self).display_mode,
            final(self).active == old(self).active,
    {
        self.baud = if self.baud == 9600 {
            19200
        } else if self.baud == 19200 {
            38400
        } else if self.baud == 38400 {
            57600
        } else if self.baud == 57600 {
            115200
        } else if self.baud == 115200 {
            230400
        } else if self.baud == 230400 {
            460800
        } else if self.baud == 460800 {
            921600
        } else if self.baud == 921600 {
            9600
        } else {
            19200
        };
    }

    /// Rotates the stop-bit count to the next one in the list.
    pub fn rotate_stopbits(&mut self)
        ensures
            final(self).stopbits == next_stopbits(old(self).stopbits),
            final(self).port@ == old(self).port@,
            final(self).baud == old(self).baud,
            final(self).parity@ == old(self).parity@,
            final(self).databits == old(self).databits,
            final(self).display_mode == old(self).display_mode,
            final(self).active == old(self).active,
    {
        self.stopbits = if self.stopbits == 1 {
            2
        } else if self.stopbits == 2 {
            3
        } else if self.stopbits == 3 {
            1
        } else {
            2
        };
    }

    /// Rotates the data-bit count to the next one in the list.
    pub fn rotate_databits(&mut self)
        ensures
            final(self).databits == next_databits(old(self).databits),
            final(self).port@ == old(self).port@,
            final(self).baud == old(self).baud,
            final(self).stopbits == old(self).stopbits,
            final(self).parity@ == old(self).parity@,
            final(self).display_mode == old(self).display_mode,
            final(self).active == old(self).active,
    {
        self.databits = if self.databits == 5 {
            6
        } else if self.databits == 6 {
            7
        } else if self.databits == 7 {
            8
        } else if self.databits == 8 {
            9
        } else if self.databits == 9 {
            5
        } else {
            6
        };
    }

    /// Rotates the parity to the next name in the list.
    pub fn rotate_parity(&mut self)
        ensures
            final(self).parity@ == next_parity(old(self).parity@),
            final(self).port@ == old(self).port@,
            final(self).baud == old(self).baud,
            final(self).stopbits == old(self).stopbits,
            final(self).databits == old(self).databits,
            final(self).display_mode == old(self).display_mode,
            final(self).active == old(self).active,
    {
        let none_name = String::from_str("None");
        let odd_name = String::from_str("Odd");
        let even_name = String::from_str("Even");
        self.parity = if self.parity == none_name {
            odd_name
        } else if self.parity == odd_name {
            even_name
        } else if self.parity == even_name {
            none_name
        } else {
            odd_name
        };
    }

    /// Rotates the display mode through its cycle.
    pub fn rotate_display_mode(&mut self)
        ensures
            final(self).display_mode == next_display_mode(old(self).display_mode),
            final(self).port@ == old(self).port@,
            final(self).baud == old(self).baud,
            final(self).stopbits == old(self).stopbits,
            final(self).parity@ == old(self).parity@,
            final(self).databits == old(self).databits,
            final(self).active == old(self).active,
    {
        self.display_mode = match self.display_mode {
            DisplayMode::Decimal => DisplayMode::Hex,
            DisplayMode::Hex => DisplayMode::Ascii,
            DisplayMode::Ascii => DisplayMode::MixedHex,
            DisplayMode::MixedHex => DisplayMode::MixedDec,
            DisplayMode::MixedDec => DisplayMode::Decimal,
        };
    }

    /// Rotates the selected port within the given list of available port
    /// names: with an empty list the port is cleared; when the current
    /// port is found in the list the next one (cyclically) is selected;
    /// otherwise the first one is.
    pub fn rotate_port(&mut self, ports: &Vec<String>)
        ensures
            final(self).baud == old(self).baud,
            final(self).stopbits == old(self).stopbits,
            final(self).parity@ == old(self).parity@,
            final(self).databits == old(self).databits,
            final(self).display_mode == old(self).display_mode,
            final(self).active == old(self).active,
            ports@.len() == 0 ==> final(self).port@ == Seq::<char>::empty(),
            ports@.len() > 0 ==> {
                let i = find_port(ports@, old(self).port@, 0);
                &&& i >= 0 ==> final(self).port@ == ports@[if i + 1 < ports@.len() {
                    i + 1
                } else {
                    0
                }]@
                &&& i < 0 ==> final(self).port@ == ports@[0]@
            },
    {
        let n = ports.len();
        if n == 0 {
            self.port = String::new();
            return ;
        }
        let ghost p = self.port@;
        let mut port_found = false;
        let mut idx: usize = 0;
        let mut i: usize = 0;
        while i < n && !port_found
            invariant
                n == ports@.len(),
                0 < n,
                i <= n,
                p == self.port@,
                !port_found ==> find_port(ports@, p, 0) == find_port(ports@, p, i as int),
                port_found ==> idx < n && ports@[idx as int]@ == p && find_port(ports@, p, 0)
                    == idx as int,
            decreases n - i + (if port_found {
                0int
            } else {
                1int
            }),
        {
            if self.port == ports[i] {
                port_found = true;
                idx = i;
            } else {
                proof {
                    assert(find_port(ports@, p, i as int) == find_port(ports@, p, i as int + 1));
                }
                i = i + 1;
            }
        }
        if port_found {
            let next = if idx + 1 < n {
                idx + 1
            } else {
                0
            };
            self.port = ports[next].clone();
            proof {
                assert(self.port@ == ports@[next as int]@);
            }
        } else {
            proof {
                assert(find_port(ports@, p, n as int) == -1);
            }
            self.port = ports[0].clone();
            proof {
                assert(self.port@ == ports@[0]@);
            }
        }
    }
}

} // verus!
