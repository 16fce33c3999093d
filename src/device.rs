//! The device session's decisions: which output port the user prefers, and
//! whether a requested port exists. Opening and closing the port itself is
//! the front end's work.
use vstd::prelude::*;

use crate::text::{trim_of, trimmed};

verus! {

/// Why no output session could be opened.
#[derive(Clone, Copy, Debug, PartialEq, Eq, Structural)]
pub enum DeviceError {
    /// The requested port index is not among the ports.
    NoSuchPort,
    /// The MIDI system refused the connection.
    ConnectionFailed,
    /// No preferred port has been chosen.
    NoPreferredPort,
}

/// The process-wide choice of output port, passed to whoever needs it.
pub struct DeviceConfig {
    preferred_port: Option<usize>,
}

impl DeviceConfig {
    /// The preferred port, if one has been chosen.
    pub closed spec fn spec_preferred_port(&self) -> Option<usize> {
        self.preferred_port
    }

    /// A configuration with no preferred port.
    pub fn new() -> (r: DeviceConfig)
        ensures
            r.spec_preferred_port() is None,
    {
        DeviceConfig { preferred_port: None }
    }

    /// Makes `port_index` the preferred port, replacing any earlier choice.
    pub fn set_preferred_port(&mut self, port_index: usize)
        ensures
            final(self).spec_preferred_port() == Some(port_index),
    {
        self.preferred_port = Some(port_index);
    }

    /// The preferred port, if one has been chosen.
    pub fn preferred_port(&self) -> (r: Option<usize>)
        ensures
            r == self.spec_preferred_port(),
    {
        self.preferred_port
    }

    /// The port to open for a session: the preferred one, or
    /// `NoPreferredPort` when none has been chosen.
    pub fn port_to_open(&self) -> (r: Result<usize, DeviceError>)
        ensures
            self.spec_preferred_port() matches Some(i) ==> r == Ok::<usize, DeviceError>(i),
            self.spec_preferred_port() is None ==> r == Err::<usize, DeviceError>(
                DeviceError::NoPreferredPort,
            ),
    {
        match self.preferred_port {
            Some(i) => Ok(i),
            None => Err(DeviceError::NoPreferredPort),
        }
    }
}

/// Checks a requested output port against the number of ports the system
/// lists: the index itself when it names one, `NoSuchPort` otherwise.
pub fn select_output_port(port_index: usize, port_count: usize) -> (r: Result<usize, DeviceError>)
    ensures
        port_index < port_count ==> r == Ok::<usize, DeviceError>(port_index),
        port_index >= port_count ==> r == Err::<usize, DeviceError>(DeviceError::NoSuchPort),
{
    if port_index >= port_count {
        Err(DeviceError::NoSuchPort)
    } else {
        Ok(port_index)
    }
}

/// Whether a character is an ASCII decimal digit.
pub open spec fn is_digit(c: char) -> bool {
    '0' <= c && c <= '9'
}

/// The value of a digit character.
pub open spec fn digit_value(c: char) -> nat {
    (c as u32 - '0' as u32) as nat
}

/// The value of a string of decimal digits, most significant first.
pub open spec fn digits_value(s: Seq<char>) -> nat
    decreases s.len(),
{
    if s.len() == 0 {
        0
    } else {
        digits_value(s.drop_last()) * 10 + digit_value(s.last())
    }
}

/// The digits of a decimal number: the text after an optional leading plus
/// sign.
pub open spec fn unsigned_digits(s: Seq<char>) -> Seq<char> {
    if s.len() > 0 && s[0] == '+' {
        s.skip(1)
    } else {
        s
    }
}

/// The number that a text denotes in decimal, as `usize` parsing reads it:
/// an optional plus sign, then one or more ASCII digits whose value fits;
/// anything else denotes none.
pub open spec fn decimal_usize(s: Seq<char>) -> Option<usize> {
    let d = unsigned_digits(s);
    if d.len() > 0 && (forall|i: int| 0 <= i < d.len() ==> is_digit(#[trigger] d[i]))
        && digits_value(d) <= usize::MAX {
        Some(digits_value(d) as usize)
    } else {
        None
    }
}

/// Reads an unsigned decimal number: an optional plus sign and one or more
/// ASCII digits, with a value that fits in `usize`.
pub fn parse_decimal_usize(text: &str) -> (r: Option<usize>)
    ensures
        r == decimal_usize(text@),
{
    let n = text.unicode_len();
    let mut start: usize = 0;
    if n > 0 && text.get_char(0) == '+' {
        start = 1;
    }
    let ghost d = unsigned_digits(text@);
    assert(d =~= text@.skip(start as int));
    if start == n {
        return None;
    }
    let mut acc: usize = 0;
    let mut overflow = false;
    let mut i: usize = start;
    while i < n
        invariant
            n == text@.len(),
            start <= i <= n,
            d == text@.skip(start as int),
            d == unsigned_digits(text@),
            forall|j: int| 0 <= j < i - start ==> is_digit(#[trigger] d[j]),
            !overflow ==> acc == digits_value(d.take(i - start)),
            overflow ==> digits_value(d.take(i - start)) > usize::MAX,
        decreases n - i,
    {
        let c = text.get_char(i);
        if !('0' <= c && c <= '9') {
            assert(!is_digit(d[i - start]));
            assert(!(forall|j: int| 0 <= j < d.len() ==> is_digit(#[trigger] d[j])));
            return None;
        }
        let v: usize = (c as u32 - '0' as u32) as usize;
        assert(d.take(i - start + 1).drop_last() =~= d.take(i - start));
        assert(d.take(i - start + 1).last() == c);
        if !overflow {
            match acc.checked_mul(10) {
                Some(m) => match m.checked_add(v) {
                    Some(a) => {
                        acc = a;
                    },
                    None => {
                        overflow = true;
                    },
                },
                None => {
                    overflow = true;
                },
            }
        }
        i = i + 1;
    }
    assert(d.take(n - start) =~= d);
    if overflow {
        None
    } else {
        Some(acc)
    }
}

/// Reads a port number typed by the user: the line without surrounding white
/// space, as an unsigned decimal number.
pub fn parse_port_number(line: &str) -> (r: Option<usize>)
    ensures
        r == decimal_usize(trim_of(line@)),
{
    parse_decimal_usize(trimmed(line))
}

} // verus!
