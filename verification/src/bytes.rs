//! Validated MIDI byte wrappers.
//!
//! A status byte always has its most significant bit set (`0x80..=0xFF`);
//! a data byte never does (`0x00..=0x7F`).  The constructors check the
//! range, so a value of either type carries its invariant with it.

use vstd::prelude::*;

use crate::error::ParseError;

verus! {

/// Status byte: an eight-bit value in `[0x80, 0xFF]`.
///
/// Status bytes identify the message type, that is, the purpose of the data
/// bytes which follow.
#[derive(Clone, Copy, Debug, PartialEq, Eq, Structural)]
pub struct StatusByte(pub u8);

impl StatusByte {
    /// The invariant the constructors establish: the leading bit is set.
    pub open spec fn wf(&self) -> bool {
        self.0 >= 0x80
    }

    /// The wrapped byte, for contracts.
    pub open spec fn spec_byte(&self) -> u8 {
        self.0
    }

    /// Check a new status byte.
    ///
    /// Succeeds exactly on bytes with their high bit set, and the wrapped
    /// value round-trips through [`StatusByte::byte`].
    pub fn new(byte: u8) -> (r: Result<Self, ParseError>)
        ensures
            byte >= 0x80 ==> r == Ok::<StatusByte, ParseError>(StatusByte(byte)),
            byte < 0x80 ==> r == Err::<StatusByte, ParseError>(ParseError::InvalidStatusByte(byte)),
    {
        if byte >= 0x80 {
            Ok(StatusByte(byte))
        } else {
            Err(ParseError::InvalidStatusByte(byte))
        }
    }

    /// Only use if the value has already been checked or constructed such
    /// that it cannot have a leading 0 bit.
    pub fn new_unchecked(byte: u8) -> (r: Self)
        ensures
            r == StatusByte(byte),
    {
        StatusByte(byte)
    }

    /// Get the underlying byte of the status.
    pub fn byte(&self) -> (r: u8)
        ensures
            r == self.spec_byte(),
    {
        self.0
    }
}

/// Data byte: an eight-bit value in `[0x00, 0x7F]`.
#[derive(Clone, Copy, Debug, Hash, PartialEq, Eq, Structural)]
pub struct DataByte(pub u8);

impl DataByte {
    /// The invariant the checking constructor establishes: the leading bit
    /// is clear.
    pub open spec fn wf(&self) -> bool {
        self.0 < 0x80
    }

    /// The wrapped byte, for contracts.
    pub open spec fn spec_value(&self) -> u8 {
        self.0
    }

    /// Check a new data byte.
    ///
    /// Succeeds exactly on bytes with their high bit clear, and the wrapped
    /// value round-trips through [`DataByte::value`].
    pub fn new(byte: u8) -> (r: Result<Self, ParseError>)
        ensures
            byte < 0x80 ==> r == Ok::<DataByte, ParseError>(DataByte(byte)),
            byte >= 0x80 ==> r == Err::<DataByte, ParseError>(ParseError::InvalidDataByte(byte)),
    {
        if byte < 0x80 {
            Ok(DataByte(byte))
        } else {
            Err(ParseError::InvalidDataByte(byte))
        }
    }

    /// Create a data byte without checking for the leading 0.
    pub fn new_unchecked(byte: u8) -> (r: Self)
        ensures
            r == DataByte(byte),
    {
        DataByte(byte)
    }

    /// Get the underlying byte of the data.
    pub fn value(&self) -> (r: u8)
        ensures
            r == self.spec_value(),
    {
        self.0
    }
}

/// The three shapes of a MIDI message: a lone status byte, a status byte
/// with one data byte, or a status byte with two data bytes.
#[derive(Clone, Copy, Debug, PartialEq, Eq, Structural)]
pub enum MidiMessageBytes {
    /// Message is only one byte.
    Status(StatusByte),
    /// Message is a [`StatusByte`] and a [`DataByte`].
    Single(StatusByte, DataByte),
    /// Message is a [`StatusByte`] and two [`DataByte`]s.
    Double(StatusByte, DataByte, DataByte),
}

impl MidiMessageBytes {
    /// The raw bytes of the message, most significant first.
    pub open spec fn spec_bytes(&self) -> Seq<u8> {
        match *self {
            MidiMessageBytes::Status(s) => seq![s.spec_byte()],
            MidiMessageBytes::Single(s, d) => seq![s.spec_byte(), d.spec_value()],
            MidiMessageBytes::Double(s, d1, d2) => seq![
                s.spec_byte(),
                d1.spec_value(),
                d2.spec_value(),
            ],
        }
    }

    /// Writes the message bytes into the front of a buffer.
    ///
    /// As many bytes as fit are stored; the count of bytes written is
    /// returned, and the rest of the buffer is untouched.
    pub fn write_into(&self, buf: &mut Vec<u8>) -> (n: usize)
        ensures
            n == vstd::math::min(self.spec_bytes().len() as int, old(buf)@.len() as int),
            final(buf)@.len() == old(buf)@.len(),
            forall|i: int| 0 <= i < n ==> final(buf)@[i] == self.spec_bytes()[i],
            forall|i: int| n <= i < old(buf)@.len() ==> final(buf)@[i] == old(buf)@[i],
    {
        let bytes: [u8; 3] = match *self {
            MidiMessageBytes::Status(s) => [s.byte(), 0, 0],
            MidiMessageBytes::Single(s, d) => [s.byte(), d.value(), 0],
            MidiMessageBytes::Double(s, d1, d2) => [s.byte(), d1.value(), d2.value()],
        };
        let want: usize = match *self {
            MidiMessageBytes::Status(_) => 1,
            MidiMessageBytes::Single(..) => 2,
            MidiMessageBytes::Double(..) => 3,
        };
        let mut i: usize = 0;
        while i < want && i < buf.len()
            invariant
                0 <= i <= want,
                want <= 3,
                i <= buf.len(),
                buf@.len() == old(buf)@.len(),
                forall|j: int| 0 <= j < i ==> buf@[j] == self.spec_bytes()[j],
                forall|j: int| i <= j < buf@.len() ==> buf@[j] == old(buf)@[j],
                want == self.spec_bytes().len(),
                forall|j: int| 0 <= j < want ==> bytes@[j] == self.spec_bytes()[j],
            decreases want - i,
        {
            let b = bytes[i];
            buf[i] = b;
            i += 1;
        }
        i
    }
}

} // verus!
