//! Notes, keys and octaves.
//!
//! A [`Note`] is a 7-bit MIDI key number; each value names a [`Key`]
//! (pitch class) and an [`Octave`].  Note 0 is C(-1) and note 127 is G9.

use vstd::prelude::*;

use crate::bytes::DataByte;
use crate::error::ParseError;

verus! {

/// Identifies a key for some message, interpreted as a 7-bit number.
#[derive(Clone, Copy, Debug, Hash, PartialEq, Eq, Structural)]
pub struct Note(pub DataByte);

/// Identifies the pitch class of a [`Note`].
#[derive(Clone, Copy, Debug, Hash, PartialEq, Eq, Structural)]
#[allow(missing_docs)]
pub enum Key {
    C,
    CSharp,
    D,
    DSharp,
    E,
    F,
    FSharp,
    G,
    GSharp,
    A,
    ASharp,
    B,
}

/// Identifies the octave for a [`Key`].  Values range from -1 to 9.
#[derive(Clone, Copy, Debug, PartialEq, Eq, Structural)]
pub struct Octave(pub i8);

impl Key {
    /// The semitone index of the key within its octave, for contracts.
    pub open spec fn spec_index(&self) -> u8 {
        match *self {
            Key::C => 0,
            Key::CSharp => 1,
            Key::D => 2,
            Key::DSharp => 3,
            Key::E => 4,
            Key::F => 5,
            Key::FSharp => 6,
            Key::G => 7,
            Key::GSharp => 8,
            Key::A => 9,
            Key::ASharp => 10,
            Key::B => 11,
        }
    }

    /// The key with a given semitone index below 12, for contracts.
    pub open spec fn spec_from_index(i: u8) -> Key {
        if i == 0 {
            Key::C
        } else if i == 1 {
            Key::CSharp
        } else if i == 2 {
            Key::D
        } else if i == 3 {
            Key::DSharp
        } else if i == 4 {
            Key::E
        } else if i == 5 {
            Key::F
        } else if i == 6 {
            Key::FSharp
        } else if i == 7 {
            Key::G
        } else if i == 8 {
            Key::GSharp
        } else if i == 9 {
            Key::A
        } else if i == 10 {
            Key::ASharp
        } else {
            Key::B
        }
    }

    /// Returns an array of all keys, [`Key::C`] through [`Key::B`].
    pub fn all() -> (r: [Key; 12])
        ensures
            forall|i: int| 0 <= i < 12 ==> r@[i].spec_index() == i,
    {
        let r = [
            Key::C,
            Key::CSharp,
            Key::D,
            Key::DSharp,
            Key::E,
            Key::F,
            Key::FSharp,
            Key::G,
            Key::GSharp,
            Key::A,
            Key::ASharp,
            Key::B,
        ];
        assert(forall|i: int| 0 <= i < 12 ==> r@[i].spec_index() == i) by {
            assert(r@[0].spec_index() == 0);
            assert(r@[1].spec_index() == 1);
            assert(r@[2].spec_index() == 2);
            assert(r@[3].spec_index() == 3);
            assert(r@[4].spec_index() == 4);
            assert(r@[5].spec_index() == 5);
            assert(r@[6].spec_index() == 6);
            assert(r@[7].spec_index() == 7);
            assert(r@[8].spec_index() == 8);
            assert(r@[9].spec_index() == 9);
            assert(r@[10].spec_index() == 10);
            assert(r@[11].spec_index() == 11);
        }
        r
    }

    /// Returns true if the key sounds a black piano key.  Same as
    /// [`Key::is_flat`].
    pub fn is_sharp(&self) -> (r: bool)
        ensures
            r == matches!(*self, Key::CSharp | Key::DSharp | Key::FSharp | Key::GSharp
                | Key::ASharp),
    {
        matches!(self, Key::CSharp | Key::DSharp | Key::FSharp | Key::GSharp | Key::ASharp)
    }

    /// Returns true if the key sounds a black piano key.  Same as
    /// [`Key::is_sharp`].
    pub fn is_flat(&self) -> (r: bool)
        ensures
            r == matches!(*self, Key::CSharp | Key::DSharp | Key::FSharp | Key::GSharp
                | Key::ASharp),
    {
        self.is_sharp()
    }

    /// Identify the key of a note byte: its semitone index modulo 12.
    pub fn from_data_byte(key: &DataByte) -> (r: Self)
        ensures
            r == Key::spec_from_index((key.spec_value() % 12) as u8),
            r.spec_index() == key.spec_value() % 12,
    {
        let note = key.value() % 12;
        match note {
            0 => Key::C,
            1 => Key::CSharp,
            2 => Key::D,
            3 => Key::DSharp,
            4 => Key::E,
            5 => Key::F,
            6 => Key::FSharp,
            7 => Key::G,
            8 => Key::GSharp,
            9 => Key::A,
            10 => Key::ASharp,
            _ => Key::B,
        }
    }

    /// The semitone index of the key within its octave.
    pub fn get_mod_12(&self) -> (r: u8)
        ensures
            r == self.spec_index(),
            r < 12,
    {
        match *self {
            Key::C => 0,
            Key::CSharp => 1,
            Key::D => 2,
            Key::DSharp => 3,
            Key::E => 4,
            Key::F => 5,
            Key::FSharp => 6,
            Key::G => 7,
            Key::GSharp => 8,
            Key::A => 9,
            Key::ASharp => 10,
            Key::B => 11,
        }
    }

    /// Create a [`Note`] given this key and a provided [`Octave`].
    pub fn with_octave(self, octave: Octave) -> (r: Note)
        requires
            -1 <= octave.spec_value(),
            (octave.spec_value() + 1) * 12 + self.spec_index() <= 127,
        ensures
            r.spec_byte() == (octave.spec_value() + 1) * 12 + self.spec_index(),
    {
        Note::new(self, octave)
    }
}

impl Note {
    /// The 7-bit key number of the note, for contracts.
    pub open spec fn spec_byte(&self) -> u8 {
        self.0.spec_value()
    }

    /// Create a new note, checking for the leading 0 bit.
    ///
    /// Succeeds exactly on bytes below 0x80.
    pub fn from_databyte(rep: u8) -> (r: Result<Self, ParseError>)
        ensures
            rep < 0x80 ==> (r matches Ok(n) && n.spec_byte() == rep),
            rep >= 0x80 ==> r == Err::<Note, ParseError>(ParseError::InvalidDataByte(rep)),
    {
        match DataByte::new(rep) {
            Ok(b) => Ok(Note(b)),
            Err(e) => Err(e),
        }
    }

    /// Creates a new note without checking the validity of the byte.
    pub fn from_databyte_unchecked(byte: u8) -> (r: Self)
        ensures
            r.spec_byte() == byte,
    {
        Note(DataByte::new_unchecked(byte))
    }

    /// Create all 128 possible notes, in key-number order.
    pub fn all() -> (r: Vec<Note>)
        ensures
            r@.len() == 128,
            forall|i: int| 0 <= i < 128 ==> r@[i].spec_byte() == i,
    {
        let mut notes: Vec<Note> = Vec::new();
        let mut i: u8 = 0;
        while i < 128
            invariant
                i <= 128,
                notes@.len() == i,
                forall|j: int| 0 <= j < i ==> notes@[j].spec_byte() == j,
            decreases 128 - i,
        {
            notes.push(Note(DataByte::new_unchecked(i)));
            i += 1;
        }
        notes
    }

    /// Create a note from a given key and octave.
    ///
    /// Notes beyond G9 do not exist in MIDI, so on the topmost octave only
    /// keys up to G are accepted.
    pub fn new(key: Key, octave: Octave) -> (r: Self)
        requires
            -1 <= octave.spec_value(),
            (octave.spec_value() + 1) * 12 + key.spec_index() <= 127,
        ensures
            r.spec_byte() == (octave.spec_value() + 1) * 12 + key.spec_index(),
    {
        let octave_byte = (octave.value() + 1) as u8;
        let note_byte = key.get_mod_12();
        let octave_mult = octave_byte * 12;
        Note(DataByte::new_unchecked(octave_mult + note_byte))
    }

    /// Identifies the key of the note.
    pub fn key(&self) -> (r: Key)
        ensures
            r.spec_index() == self.spec_byte() % 12,
    {
        Key::from_data_byte(&self.0)
    }

    /// Returns true if the key of the note is sharp.  Same as
    /// [`Note::is_flat`].
    pub fn is_sharp(&self) -> (r: bool)
        ensures
            r == matches!(Key::spec_from_index((self.spec_byte() % 12) as u8),
                Key::CSharp | Key::DSharp | Key::FSharp | Key::GSharp | Key::ASharp),
    {
        self.key().is_sharp()
    }

    /// Returns true if the key of the note is flat.  Same as
    /// [`Note::is_sharp`].
    pub fn is_flat(&self) -> (r: bool)
        ensures
            r == matches!(Key::spec_from_index((self.spec_byte() % 12) as u8),
                Key::CSharp | Key::DSharp | Key::FSharp | Key::GSharp | Key::ASharp),
    {
        self.key().is_flat()
    }

    /// Identifies the octave of the note.
    pub fn octave(&self) -> (r: Octave)
        ensures
            r.spec_value() == self.spec_byte() / 12 - 1,
    {
        Octave::from_data_byte(&self.0)
    }

    /// Returns the underlying byte of the note.
    pub fn byte(&self) -> (r: u8)
        ensures
            r == self.spec_byte(),
    {
        self.0.value()
    }
}

/// What adding an offset to a note means: the key number moves up and
/// saturates at 127.
pub open spec fn note_add_spec(n: Note, rhs: u8) -> Note {
    let sum = n.spec_byte() + rhs;
    if sum > 127 {
        Note(DataByte(127))
    } else {
        Note(DataByte(sum as u8))
    }
}

/// What subtracting an offset from a note means: the key number moves down
/// and saturates at 0.
pub open spec fn note_sub_spec(n: Note, rhs: u8) -> Note {
    if rhs > n.spec_byte() {
        Note(DataByte(0))
    } else {
        Note(DataByte((n.spec_byte() - rhs) as u8))
    }
}

impl core::ops::Add<u8> for Note {
    type Output = Note;

    /// Move this many semitones up, saturating at the topmost note.
    fn add(self, rhs: u8) -> (r: Note)
        ensures
            r == note_add_spec(self, rhs),
    {
        let mut next = self.0.value().saturating_add(rhs);
        if next > 127 {
            next = 127;
        }
        Note(DataByte::new_unchecked(next))
    }
}

impl vstd::std_specs::ops::AddSpecImpl<u8> for Note {
    open spec fn obeys_add_spec() -> bool {
        true
    }

    open spec fn add_req(self, rhs: u8) -> bool {
        true
    }

    open spec fn add_spec(self, rhs: u8) -> Note {
        note_add_spec(self, rhs)
    }
}

impl core::ops::Sub<u8> for Note {
    type Output = Note;

    /// Move this many semitones down, saturating at the bottommost note.
    fn sub(self, rhs: u8) -> (r: Note)
        ensures
            r == note_sub_spec(self, rhs),
    {
        let next = self.0.value().saturating_sub(rhs);
        Note(DataByte::new_unchecked(next))
    }
}

impl vstd::std_specs::ops::SubSpecImpl<u8> for Note {
    open spec fn obeys_sub_spec() -> bool {
        true
    }

    open spec fn sub_req(self, rhs: u8) -> bool {
        true
    }

    open spec fn sub_spec(self, rhs: u8) -> Note {
        note_sub_spec(self, rhs)
    }
}

impl Octave {
    /// The octave number, for contracts.
    pub open spec fn spec_value(&self) -> i8 {
        self.0
    }

    /// Identify the octave of a note byte.
    pub fn from_data_byte(key: &DataByte) -> (r: Self)
        ensures
            r.spec_value() == key.spec_value() / 12 - 1,
    {
        let octave = key.value() / 12;
        Octave((octave as i8) - 1)
    }

    /// Should be a value between -1 and 9; clamps between these two values.
    pub fn new(octave: i8) -> (r: Self)
        ensures
            octave < -1 ==> r.spec_value() == -1,
            octave > 9 ==> r.spec_value() == 9,
            -1 <= octave <= 9 ==> r.spec_value() == octave,
    {
        let mut octave = octave;
        if octave < -1 {
            octave = -1;
        } else if octave > 9 {
            octave = 9;
        }
        Octave(octave)
    }

    /// The octave, from -1 to 9.
    pub fn value(&self) -> (r: i8)
        ensures
            r == self.spec_value(),
    {
        self.0
    }

    /// Create a [`Note`] given this octave and a provided [`Key`].
    pub fn with_note(self, note: Key) -> (r: Note)
        requires
            -1 <= self.spec_value(),
            (self.spec_value() + 1) * 12 + note.spec_index() <= 127,
        ensures
            r.spec_byte() == (self.spec_value() + 1) * 12 + note.spec_index(),
    {
        Note::new(note, self)
    }
}

} // verus!
