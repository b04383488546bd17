//! One terminal line that is written over and over.
//!
//! The printer keeps what it needs to know of the line, the description
//! that starts it and how many characters were last put on it, and hands
//! back the text to be written. Writing and flushing that text is left to
//! the caller.

use vstd::prelude::*;
use vstd::string::StrSliceExecFns;
use vstd::string::StringExecFns;
use crate::rate::bytes_to_human;
use crate::rate::rate;
use crate::rate::rate_per_second;
use crate::rate::scaled_bytes;
use crate::rate::unit_rank;
use crate::rate::unit_suffix;
use crate::text::decimal;
use crate::text::push_decimal;
use crate::text::push_spaces;
use crate::text::spaces;
use crate::timing::Elapsed;

verus! {

/// What a printer knows of its line.
pub struct PrinterState {
    /// The text that starts every statistics line.
    pub line_description: Seq<char>,
    /// The number of characters last written to the line; zero on a fresh
    /// line.
    pub last_print_length: nat,
}

/// The number of blanks that wipe out what a line of `previous_length`
/// characters leaves behind a new text of `length` characters.
pub open spec fn padding(previous_length: nat, length: nat) -> nat {
    if previous_length > length {
        (previous_length - length) as nat
    } else {
        0
    }
}

/// What is written to put `line` on a terminal line that holds
/// `previous_length` characters: the text, blanks over what is left of the
/// longer text before it, and a carriage return.
pub open spec fn frame(previous_length: nat, line: Seq<char>) -> Seq<char> {
    line + spaces(padding(previous_length, line.len())) + "\r"@
}

/// A title with its decoration.
pub open spec fn title_text(title: Seq<char>) -> Seq<char> {
    "== "@ + title + " =="@
}

/// The statistics line for `packets` packets and `bytes` bytes sent in
/// `nanos` nanoseconds: the description, the byte rate in the largest
/// binary unit that is not above it, and the packet rate.
pub open spec fn statistics_text(
    description: Seq<char>,
    packets: nat,
    bytes: nat,
    nanos: nat,
) -> Seq<char>
    recommends
        nanos > 0,
{
    let byte_rate = rate_per_second(bytes, nanos);
    description + ": "@ + decimal(scaled_bytes(byte_rate)) + " "@ + unit_suffix(
        unit_rank(byte_rate),
    ) + "B/s - "@ + decimal(rate_per_second(packets, nanos)) + " pps"@
}

/// The state of one rewritable terminal line.
pub struct Printer {
    line_description: String,
    last_print_length: usize,
}

impl View for Printer {
    type V = PrinterState;

    closed spec fn view(&self) -> PrinterState {
        PrinterState {
            line_description: self.line_description@,
            last_print_length: self.last_print_length as nat,
        }
    }
}

impl Printer {
    /// A printer on a fresh line, with an empty description.
    pub fn new() -> (printer: Printer)
        ensures
            printer@.line_description == Seq::<char>::empty(),
            printer@.last_print_length == 0,
    {
        Printer { line_description: String::new(), last_print_length: 0 }
    }

    /// The text that writes the decorated title on a line of its own, and
    /// leaves the printer on a fresh line.
    pub fn print_title(&mut self, title: &str) -> (out: String)
        ensures
            out@ == frame(old(self)@.last_print_length, title_text(title@)) + "\n"@,
            final(self)@.line_description == old(self)@.line_description,
            final(self)@.last_print_length == 0,
    {
        let mut text = String::from_str("== ");
        text.append(title);
        text.append(" ==");
        self.println(text.as_str())
    }

    /// Sets the text that starts the statistics lines to come. Nothing is
    /// written.
    pub fn print_line_description(&mut self, desc: &str)
        ensures
            final(self)@.line_description == desc@,
            final(self)@.last_print_length == old(self)@.last_print_length,
    {
        self.line_description = String::from_str(desc);
    }

    /// The text that puts fresh statistics over the current line.
    pub fn print_statistics(&mut self, pkgs: usize, bytes: usize, duration: Elapsed) -> (out:
        String)
        requires
            duration.nanos > 0,
        ensures
            out@ == frame(
                old(self)@.last_print_length,
                statistics_text(
                    old(self)@.line_description,
                    pkgs as nat,
                    bytes as nat,
                    duration.total_nanos(),
                ),
            ),
            final(self)@.line_description == old(self)@.line_description,
            final(self)@.last_print_length == statistics_text(
                old(self)@.line_description,
                pkgs as nat,
                bytes as nat,
                duration.total_nanos(),
            ).len(),
    {
        let text = self.build_statistics_string(pkgs, bytes, duration);
        self.print(text.as_str())
    }

    /// The text that ends the current line; the printer is on a fresh line
    /// afterwards.
    pub fn end_line(&mut self) -> (out: String)
        ensures
            out@ == "\n"@,
            final(self)@.line_description == old(self)@.line_description,
            final(self)@.last_print_length == 0,
    {
        self.last_print_length = 0;
        String::from_str("\n")
    }

    /// The statistics line for what was sent in `duration`.
    pub fn build_statistics_string(&self, pkgs: usize, bytes: usize, duration: Elapsed) -> (text:
        String)
        requires
            duration.nanos > 0,
        ensures
            text@ == statistics_text(
                self@.line_description,
                pkgs as nat,
                bytes as nat,
                duration.total_nanos(),
            ),
    {
        let packet_rate: u128 = rate(pkgs, duration);
        let byte_rate: u128 = rate(bytes, duration);
        let (scaled, suffix) = bytes_to_human(byte_rate);
        let mut text = self.line_description.clone();
        text.append(": ");
        push_decimal(&mut text, scaled);
        text.append(" ");
        text.append(suffix);
        text.append("B/s - ");
        push_decimal(&mut text, packet_rate);
        text.append(" pps");
        text
    }

    /// The text that puts `line` on a line of its own, and leaves the
    /// printer on a fresh line.
    pub fn println(&mut self, line: &str) -> (out: String)
        ensures
            out@ == frame(old(self)@.last_print_length, line@) + "\n"@,
            final(self)@.line_description == old(self)@.line_description,
            final(self)@.last_print_length == 0,
    {
        let mut out = self.print(line);
        let end = self.end_line();
        out.append(end.as_str());
        out
    }

    /// The text that puts `line` over the current line: the line itself,
    /// blanks over what a longer text before it left on the terminal, and
    /// a carriage return. Lengths count characters, not bytes.
    pub fn print(&mut self, line: &str) -> (out: String)
        ensures
            out@ == frame(old(self)@.last_print_length, line@),
            final(self)@.line_description == old(self)@.line_description,
            final(self)@.last_print_length == line@.len(),
    {
        let mut out = String::from_str(line);
        let length: usize = line.unicode_len();
        if self.last_print_length > length {
            push_spaces(&mut out, self.last_print_length - length);
        }
        assert(out@ =~= line@ + spaces(padding(old(self)@.last_print_length, line@.len())));
        self.last_print_length = length;
        out.append("\r");
        out
    }
}

/// What shows on the terminal after a frame is as long as the longer of
/// the line before and the new text: it starts with the new text and goes
/// on with blanks only, so nothing of the line before stays visible. The
/// frame ends with the carriage return.
pub proof fn law_frame_covers_previous(previous_length: nat, line: Seq<char>)
    ensures
        frame(previous_length, line).len() == line.len() + padding(previous_length, line.len())
            + 1,
        line.len() + padding(previous_length, line.len()) == if previous_length > line.len() {
            previous_length
        } else {
            line.len()
        },
        frame(previous_length, line).subrange(0, line.len() as int) == line,
        forall|i: int|
            line.len() <= i < line.len() + padding(previous_length, line.len()) ==> frame(
                previous_length,
                line,
            )[i] == ' ',
        frame(previous_length, line).last() == '\r',
{
    reveal_strlit("\r");
    let visible = line + spaces(padding(previous_length, line.len()));
    assert(frame(previous_length, line) =~= visible + seq!['\r']);
    assert(frame(previous_length, line).subrange(0, line.len() as int) =~= line);
}

} // verus!
