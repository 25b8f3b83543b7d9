//! Log levels and their terminal colouring.
//!
//! Each level has an ANSI 8-bit colour; [`LogLevel::wraps`] dresses a piece
//! of text in that colour, optionally in bold.  Writing the lines out, and
//! stamping them with the time, is left to the embedding.

use vstd::prelude::*;
use vstd::string::StringExecFns;

verus! {

/// A level of a log line.
#[derive(Debug, Clone, Copy, PartialEq, Eq, Structural)]
pub enum LogLevel {
    Trace,
    Debug,
    Info,
    Warning,
    Error,
    Critical,
}

impl LogLevel {
    /// The ANSI 8-bit colour code of the level.
    pub open spec fn ansi_code_spec(self) -> u8 {
        match self {
            LogLevel::Trace => 8,
            LogLevel::Debug => 27,
            LogLevel::Info => 7,
            LogLevel::Warning => 11,
            LogLevel::Error => 9,
            LogLevel::Critical => 1,
        }
    }

    /// Return the ANSI 8-bit colour code for this level.
    pub fn ansi_code(&self) -> (r: u8)
        ensures
            r == self.ansi_code_spec(),
    {
        match self {
            LogLevel::Trace => 8,
            LogLevel::Debug => 27,
            LogLevel::Info => 7,
            LogLevel::Warning => 11,
            LogLevel::Error => 9,
            LogLevel::Critical => 1,
        }
    }

    /// The name of the level.
    pub open spec fn name_spec(self) -> Seq<char> {
        match self {
            LogLevel::Trace => "trace"@,
            LogLevel::Debug => "debug"@,
            LogLevel::Info => "info"@,
            LogLevel::Warning => "warning"@,
            LogLevel::Error => "error"@,
            LogLevel::Critical => "critical"@,
        }
    }

    /// Return the name for this level.
    pub fn name(&self) -> (r: &'static str)
        ensures
            r@ == self.name_spec(),
    {
        match self {
            LogLevel::Trace => "trace",
            LogLevel::Debug => "debug",
            LogLevel::Info => "info",
            LogLevel::Warning => "warning",
            LogLevel::Error => "error",
            LogLevel::Critical => "critical",
        }
    }

    /// Return the suffix for this level: every level currently closes its
    /// lines with nothing.
    pub fn suffix(&self) -> (r: &'static str)
        ensures
            r@ == Seq::<char>::empty(),
    {
        proof {
            reveal_strlit("");
        }
        ""
    }

    /// The escape sequence that switches the terminal to this level's
    /// colour; its digits are the level's ANSI code.
    pub open spec fn colour_prefix_spec(self) -> Seq<char> {
        match self {
            LogLevel::Trace => "\u{1b}[38:5:8m"@,
            LogLevel::Debug => "\u{1b}[38:5:27m"@,
            LogLevel::Info => "\u{1b}[38:5:7m"@,
            LogLevel::Warning => "\u{1b}[38:5:11m"@,
            LogLevel::Error => "\u{1b}[38:5:9m"@,
            LogLevel::Critical => "\u{1b}[38:5:1m"@,
        }
    }

    /// What [`LogLevel::wraps`] builds: the text between the colour switch
    /// and the switch back to the default colour, with bold turned on and
    /// off around it when asked for.
    pub open spec fn wraps_spec(self, bold: bool, text: Seq<char>) -> Seq<char> {
        self.colour_prefix_spec() + (if bold {
            "\u{1b}[1m"@
        } else {
            Seq::<char>::empty()
        }) + text + (if bold {
            "\u{1b}[22m"@
        } else {
            Seq::<char>::empty()
        }) + "\u{1b}[39m"@
    }

    /// Wrap the text in the colour of this level, in bold if asked for.
    pub fn wraps(&self, bold: bool, text: &str) -> (r: String)
        ensures
            r@ == self.wraps_spec(bold, text@),
    {
        let prefix: &'static str = match self {
            LogLevel::Trace => "\u{1b}[38:5:8m",
            LogLevel::Debug => "\u{1b}[38:5:27m",
            LogLevel::Info => "\u{1b}[38:5:7m",
            LogLevel::Warning => "\u{1b}[38:5:11m",
            LogLevel::Error => "\u{1b}[38:5:9m",
            LogLevel::Critical => "\u{1b}[38:5:1m",
        };
        let mut s = String::from_str(prefix);
        if bold {
            s.append("\u{1b}[1m");
        }
        s.append(text);
        if bold {
            s.append("\u{1b}[22m");
        }
        s.append("\u{1b}[39m");
        proof {
            assert(s@ =~= self.wraps_spec(bold, text@));
        }
        s
    }
}

} // verus!
