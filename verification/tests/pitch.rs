use vibes::pitch::{letter_name, note_name, note_position, solfege_name, NotePosition};

#[test]
fn midi_69_is_a_in_octave_four() {
    let pos = note_position(69);
    assert_eq!(pos, NotePosition { pitch_class: 9, octave: 4 });
    assert_eq!(letter_name(pos.pitch_class), "A");
    assert_eq!(solfege_name(pos.pitch_class), "La");
}

#[test]
fn middle_c_is_c4() {
    let pos = note_position(60);
    assert_eq!(pos.pitch_class, 0);
    assert_eq!(pos.octave, 4);
    assert_eq!(note_name(false, pos.pitch_class), "C");
    assert_eq!(note_name(true, pos.pitch_class), "Do");
}

#[test]
fn below_midi_zero_the_octave_floors() {
    assert_eq!(note_position(0), NotePosition { pitch_class: 0, octave: -1 });
    assert_eq!(note_position(-1), NotePosition { pitch_class: 11, octave: -2 });
    assert_eq!(note_position(-12), NotePosition { pitch_class: 0, octave: -2 });
    assert_eq!(note_position(-13), NotePosition { pitch_class: 11, octave: -3 });
}

#[test]
fn extreme_midi_numbers_reconstruct() {
    for midi in [i32::MIN, i32::MIN + 1, -1000, 127, i32::MAX - 1, i32::MAX] {
        let pos = note_position(midi);
        assert!(pos.pitch_class < 12);
        assert_eq!(12 * (pos.octave as i64 + 1) + pos.pitch_class as i64, midi as i64);
    }
}

#[test]
fn an_octave_up_keeps_the_name() {
    let low = note_position(40);
    let high = note_position(52);
    assert_eq!(low.pitch_class, high.pitch_class);
    assert_eq!(low.octave + 1, high.octave);
    assert_eq!(letter_name(low.pitch_class), "E");
}

#[test]
fn both_conventions_mark_the_same_sharps() {
    for pc in 0..12 {
        let letter = letter_name(pc).ends_with('#');
        let solfege = solfege_name(pc).ends_with('#');
        assert_eq!(letter, solfege, "pitch class {pc}");
        assert_eq!(letter, [1, 3, 6, 8, 10].contains(&pc));
    }
    assert_eq!(solfege_name(8), "Sol#");
    assert_eq!(letter_name(11), "B");
    assert_eq!(solfege_name(11), "Si");
}
