//! Input encoding: navigation keys and literal text as the byte sequences
//! that are written to the child's terminal.

use vstd::prelude::*;
use vstd::string::StringExecFns;

verus! {

/// Something that can be written to a terminal as a control sequence or text.
pub trait AsAnsi {
    /// The characters that this value stands for on the wire.
    spec fn ansi(&self) -> Seq<char>;

    /// Appends the encoding of `self` to `out`, leaving what was there in place.
    fn add_to_string(&self, out: &mut String)
        ensures
            final(out)@ == old(out)@ + self.ansi(),
    ;
}

/// The navigation keys that can be sent to the program under test.
#[derive(Clone, Copy, Debug, PartialEq, Eq, Structural)]
pub enum Code {
    Left,
    Right,
    Up,
    Down,
    PageUp,
    PageDown,
    End,
    Home,
}

/// The escape character that starts every control sequence.
pub open spec fn esc() -> char {
    '\u{1b}'
}

impl Code {
    /// The fixed control sequence of each key.
    pub open spec fn sequence(self) -> Seq<char> {
        match self {
            Code::Left => seq![esc(), '[', 'D'],
            Code::Right => seq![esc(), '[', 'C'],
            Code::Up => seq![esc(), '[', 'A'],
            Code::Down => seq![esc(), '[', 'B'],
            Code::PageUp => seq![esc(), '[', '5', '~'],
            Code::PageDown => seq![esc(), '[', '6', '~'],
            Code::Home => seq![esc(), '[', '1', '~'],
            Code::End => seq![esc(), '[', '4', '~'],
        }
    }

    /// The control sequence of the key as a string slice.
    pub fn as_str(&self) -> (s: &'static str)
        ensures
            s@ == self.sequence(),
    {
        proof {
            reveal_strlit("\x1b[D");
            reveal_strlit("\x1b[C");
            reveal_strlit("\x1b[A");
            reveal_strlit("\x1b[B");
            reveal_strlit("\x1b[5~");
            reveal_strlit("\x1b[6~");
            reveal_strlit("\x1b[1~");
            reveal_strlit("\x1b[4~");
        }
        let s = match *self {
            Code::Left => "\x1b[D",
            Code::Right => "\x1b[C",
            Code::Up => "\x1b[A",
            Code::Down => "\x1b[B",
            Code::PageUp => "\x1b[5~",
            Code::PageDown => "\x1b[6~",
            Code::Home => "\x1b[1~",
            Code::End => "\x1b[4~",
        };
        s
    }
}

impl AsRef<Code> for Code {
    fn as_ref(&self) -> (r: &Code)
        ensures
            r == self,
    {
        self
    }
}

impl AsAnsi for Code {
    open spec fn ansi(&self) -> Seq<char> {
        self.sequence()
    }

    fn add_to_string(&self, out: &mut String) {
        out.append(self.as_str());
    }
}

impl AsAnsi for String {
    open spec fn ansi(&self) -> Seq<char> {
        self@
    }

    fn add_to_string(&self, out: &mut String) {
        out.append(self.as_str());
    }
}

impl<'a> AsAnsi for &'a str {
    open spec fn ansi(&self) -> Seq<char> {
        self@
    }

    fn add_to_string(&self, out: &mut String) {
        out.append(*self);
    }
}

} // verus!
