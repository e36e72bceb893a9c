//! Terminal attributes and the two local-mode bits that raw mode governs.

use vstd::prelude::*;

verus! {

/// Local-mode bit: echo input characters back to the terminal.
pub const ECHO: i32 = 0o10;

/// Local-mode bit: canonical (line-buffered, cooked) input.
pub const ICANON: i32 = 0o2;

/// The two local-mode bits that raw and cooked mode switch together.
pub const MODE_BITS: i32 = ECHO | ICANON;

/// Apply new attributes after pending output is written and pending input is
/// discarded.
pub const TCSAFLUSH: i32 = 2;

/// The four flag fields of a terminal's attributes.
///
/// Only `c_lflag` is ever changed here; the others are carried through as
/// the operating system reported them.
#[derive(Clone, Copy, Debug, PartialEq, Eq, Structural)]
pub struct Termios {
    pub c_iflag: i32,
    pub c_oflag: i32,
    pub c_cflag: i32,
    pub c_lflag: i32,
}

/// How clearing and setting the mode bits acts on a local-mode field.
proof fn lemma_mode_bits(f: i32)
    by (bit_vector)
    ensures
        (f & !MODE_BITS) & MODE_BITS == 0,
        (f & !MODE_BITS) & !MODE_BITS == f & !MODE_BITS,
        (f | MODE_BITS) & MODE_BITS == MODE_BITS,
        (f | MODE_BITS) & !MODE_BITS == f & !MODE_BITS,
        f & MODE_BITS == MODE_BITS ==> f | MODE_BITS == f,
{
}

impl Termios {
    /// Echo and canonical input are both off.
    pub open spec fn is_raw(self) -> bool {
        self.c_lflag & MODE_BITS == 0
    }

    /// Echo and canonical input are both on.
    pub open spec fn is_cooked(self) -> bool {
        self.c_lflag & MODE_BITS == MODE_BITS
    }

    /// The two records agree on every bit outside echo and canonical input.
    pub open spec fn agrees_outside_mode_bits(self, other: Termios) -> bool {
        &&& self.c_iflag == other.c_iflag
        &&& self.c_oflag == other.c_oflag
        &&& self.c_cflag == other.c_cflag
        &&& self.c_lflag & !MODE_BITS == other.c_lflag & !MODE_BITS
    }

    /// These attributes with echo and canonical input cleared.
    pub open spec fn raw_of(self) -> Termios {
        Termios { c_lflag: self.c_lflag & !MODE_BITS, ..self }
    }

    /// These attributes with echo and canonical input set.
    pub open spec fn cooked_of(self) -> Termios {
        Termios { c_lflag: self.c_lflag | MODE_BITS, ..self }
    }

    /// Clears the echo and canonical-input bits, leaving every other bit as
    /// it was.
    pub fn make_raw(&mut self)
        ensures
            *final(self) == old(self).raw_of(),
            final(self).is_raw(),
            final(self).agrees_outside_mode_bits(*old(self)),
    {
        proof {
            lemma_mode_bits(self.c_lflag);
        }
        self.c_lflag = self.c_lflag & !MODE_BITS;
    }

    /// Sets the echo and canonical-input bits, leaving every other bit as it
    /// was.
    pub fn make_cooked(&mut self)
        ensures
            *final(self) == old(self).cooked_of(),
            final(self).is_cooked(),
            final(self).agrees_outside_mode_bits(*old(self)),
    {
        proof {
            lemma_mode_bits(self.c_lflag);
        }
        self.c_lflag = self.c_lflag | MODE_BITS;
    }
}

/// Entering raw mode and then leaving it yields cooked attributes whatever
/// the two mode bits were before, and no other bit differs from the start.
pub proof fn lemma_raw_then_cooked(t: Termios)
    ensures
        t.raw_of().cooked_of().is_cooked(),
        t.raw_of().cooked_of().agrees_outside_mode_bits(t),
{
    lemma_mode_bits(t.c_lflag);
    lemma_mode_bits(t.raw_of().c_lflag);
}

/// Leaving raw mode when the attributes are already cooked changes nothing.
pub proof fn lemma_cooked_is_fixed(t: Termios)
    requires
        t.is_cooked(),
    ensures
        t.cooked_of() == t,
{
    lemma_mode_bits(t.c_lflag);
}

} // verus!
