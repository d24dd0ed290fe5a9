//! Notes, keys and octaves.

use midix::{Key, Note, Octave};

#[test]
fn add_to_note() {
    let key = Note::new(Key::C, Octave::new(9));
    let plus_one = key + 1;
    assert_eq!(plus_one, Note::new(Key::CSharp, Octave::new(9)));

    let plus_alot = key + 50;
    assert_eq!(plus_alot, Note::new(Key::G, Octave::new(9)));
}

#[test]
fn add_assign_to_note() {
    let mut key = Note::new(Key::C, Octave::new(9));
    key = key + 1;
    assert_eq!(key, Note::new(Key::CSharp, Octave::new(9)));

    key = key + 50;
    assert_eq!(key, Note::new(Key::G, Octave::new(9)));
}

#[test]
fn sub_from_note() {
    let key = Note::new(Key::C, Octave::new(9));
    let minus_one = key - 1;
    assert_eq!(minus_one, Note::new(Key::B, Octave::new(8)));

    let minus_alot = key - 220;
    assert_eq!(minus_alot, Note::new(Key::C, Octave::new(-1)));
}

#[test]
fn subassign_note() {
    let mut key = Note::new(Key::C, Octave::new(9));
    key = key - 1;
    assert_eq!(key, Note::new(Key::B, Octave::new(8)));

    key = key - 220;
    assert_eq!(key, Note::new(Key::C, Octave::new(-1)));
}

#[test]
fn test_note() {
    let c = Note::from_databyte(12).unwrap();

    assert_eq!(Key::C, c.key());

    let a_sharp = Note::from_databyte(94).unwrap();
    assert_eq!(Key::ASharp, a_sharp.key());
}

#[test]
fn test_octave() {
    let c = Note::from_databyte(12).unwrap();

    assert_eq!(0, c.octave().value());

    let a_sharp = Note::from_databyte(94).unwrap();
    assert_eq!(6, a_sharp.octave().value());
}

#[test]
fn note_from_key_octave_pairs() {
    for key_byte in 0..128 {
        let key = Note::from_databyte(key_byte).unwrap();

        let exp_note = key.key();
        let exp_oct = key.octave();

        let made_key = Note::new(exp_note, exp_oct);

        assert_eq!(exp_oct, made_key.octave());
        assert_eq!(exp_note, made_key.key());
        assert_eq!(key, Note::new(exp_note, exp_oct));
    }
}

#[test]
fn all_notes_and_keys_enumerate() {
    let notes = Note::all();
    assert_eq!(notes.len(), 128);
    for (i, n) in notes.iter().enumerate() {
        assert_eq!(n.byte() as usize, i);
    }
    let keys = Key::all();
    assert_eq!(keys.len(), 12);
    assert!(keys[1].is_sharp());
    assert!(!keys[0].is_sharp());
    assert_eq!(keys[1].is_flat(), keys[1].is_sharp());
}
