//! The settings of the terminal during the splash.
//!
//! While the splash runs the terminal neither collects input into lines
//! nor echoes it, and a read returns at once with whatever bytes there
//! are. The settings are worked out here; putting them in place, and back,
//! is left to whoever holds the terminal.

use vstd::prelude::*;

verus! {

/// How a read on the terminal waits.
#[derive(Clone, Copy, Debug, PartialEq, Eq, Structural)]
pub struct ReadPolicy {
    /// Bytes that a read waits for.
    pub min_bytes: u8,
    /// Tenths of a second that a read waits at most.
    pub timeout_tenths: u8,
}

pub open spec fn polling_spec() -> ReadPolicy {
    ReadPolicy { min_bytes: 0, timeout_tenths: 0 }
}

pub open spec fn query_spec() -> ReadPolicy {
    ReadPolicy { min_bytes: 0, timeout_tenths: 1 }
}

/// The policy of the frame loop: a read never waits, so that the loop is
/// never held up by the keyboard.
pub fn polling() -> (r: ReadPolicy)
    ensures
        r == polling_spec(),
{
    ReadPolicy { min_bytes: 0, timeout_tenths: 0 }
}

/// The policy while the terminal is asked for the cursor's position: a
/// read waits a tenth of a second for the next byte of the answer, and no
/// longer.
pub fn query() -> (r: ReadPolicy)
    ensures
        r == query_spec(),
{
    ReadPolicy { min_bytes: 0, timeout_tenths: 1 }
}

/// The local mode flags for raw input: the given flags without the one for
/// canonical processing and the one for echo, and otherwise unchanged.
pub fn raw_flags(flags: u64, canonical: u64, echo: u64) -> (r: u64)
    ensures
        r == flags & !(canonical | echo),
        r & canonical == 0,
        r & echo == 0,
        r | canonical | echo == flags | canonical | echo,
{
    let r: u64 = flags & !(canonical | echo);
    assert(r & canonical == 0 && r & echo == 0 && r | canonical | echo == flags | canonical | echo)
        by (bit_vector)
        requires
            r == flags & !(canonical | echo),
    ;
    r
}

/// Whether a read found a key pressed: it did if it brought at least one
/// byte. Which key it was does not matter.
pub fn key_pressed(bytes_read: i64) -> (r: bool)
    ensures
        r == (bytes_read > 0),
{
    bytes_read > 0
}

} // verus!
