//! Note math on whole semitones: naming the twelve pitch classes in two conventions, and placing a
//! MIDI note number on the chromatic circle and in its scientific-pitch octave.

use vstd::prelude::*;

verus! {

/// The number of pitch classes in an octave.
pub const SEMITONES: usize = 12;

/// The letter name of a pitch class, index 0 = C.
pub open spec fn letter_name_spec(pitch_class: int) -> Seq<char> {
    if pitch_class == 0 { seq!['C'] }
    else if pitch_class == 1 { seq!['C', '#'] }
    else if pitch_class == 2 { seq!['D'] }
    else if pitch_class == 3 { seq!['D', '#'] }
    else if pitch_class == 4 { seq!['E'] }
    else if pitch_class == 5 { seq!['F'] }
    else if pitch_class == 6 { seq!['F', '#'] }
    else if pitch_class == 7 { seq!['G'] }
    else if pitch_class == 8 { seq!['G', '#'] }
    else if pitch_class == 9 { seq!['A'] }
    else if pitch_class == 10 { seq!['A', '#'] }
    else { seq!['B'] }
}

/// The fixed-do solfège name of a pitch class, index 0 = Do.
pub open spec fn solfege_name_spec(pitch_class: int) -> Seq<char> {
    if pitch_class == 0 { seq!['D', 'o'] }
    else if pitch_class == 1 { seq!['D', 'o', '#'] }
    else if pitch_class == 2 { seq!['R', 'e'] }
    else if pitch_class == 3 { seq!['R', 'e', '#'] }
    else if pitch_class == 4 { seq!['M', 'i'] }
    else if pitch_class == 5 { seq!['F', 'a'] }
    else if pitch_class == 6 { seq!['F', 'a', '#'] }
    else if pitch_class == 7 { seq!['S', 'o', 'l'] }
    else if pitch_class == 8 { seq!['S', 'o', 'l', '#'] }
    else if pitch_class == 9 { seq!['L', 'a'] }
    else if pitch_class == 10 { seq!['L', 'a', '#'] }
    else { seq!['S', 'i'] }
}

/// The name of a pitch class in the chosen convention.
pub open spec fn note_name_spec(solfege: bool, pitch_class: int) -> Seq<char> {
    if solfege { solfege_name_spec(pitch_class) } else { letter_name_spec(pitch_class) }
}

/// The pitch classes that sit on a black key.
pub open spec fn is_accidental(pitch_class: int) -> bool {
    pitch_class == 1 || pitch_class == 3 || pitch_class == 6 || pitch_class == 8 || pitch_class == 10
}

/// The letter name of a pitch class (`C`, `C#`, … `B`).
pub fn letter_name(pitch_class: usize) -> (name: &'static str)
    requires
        pitch_class < SEMITONES,
    ensures
        name@ == letter_name_spec(pitch_class as int),
{
    proof {
        reveal_strlit("C");
        reveal_strlit("C#");
        reveal_strlit("D");
        reveal_strlit("D#");
        reveal_strlit("E");
        reveal_strlit("F");
        reveal_strlit("F#");
        reveal_strlit("G");
        reveal_strlit("G#");
        reveal_strlit("A");
        reveal_strlit("A#");
        reveal_strlit("B");
    }
    match pitch_class {
        0 => "C",
        1 => "C#",
        2 => "D",
        3 => "D#",
        4 => "E",
        5 => "F",
        6 => "F#",
        7 => "G",
        8 => "G#",
        9 => "A",
        10 => "A#",
        _ => "B",
    }
}

/// The solfège name of a pitch class (`Do`, `Do#`, … `Si`).
pub fn solfege_name(pitch_class: usize) -> (name: &'static str)
    requires
        pitch_class < SEMITONES,
    ensures
        name@ == solfege_name_spec(pitch_class as int),
{
    proof {
        reveal_strlit("Do");
        reveal_strlit("Do#");
        reveal_strlit("Re");
        reveal_strlit("Re#");
        reveal_strlit("Mi");
        reveal_strlit("Fa");
        reveal_strlit("Fa#");
        reveal_strlit("Sol");
        reveal_strlit("Sol#");
        reveal_strlit("La");
        reveal_strlit("La#");
        reveal_strlit("Si");
    }
    match pitch_class {
        0 => "Do",
        1 => "Do#",
        2 => "Re",
        3 => "Re#",
        4 => "Mi",
        5 => "Fa",
        6 => "Fa#",
        7 => "Sol",
        8 => "Sol#",
        9 => "La",
        10 => "La#",
        _ => "Si",
    }
}

/// The name of a pitch class, in solfège when `solfege` is set and in letters otherwise.
pub fn note_name(solfege: bool, pitch_class: usize) -> (name: &'static str)
    requires
        pitch_class < SEMITONES,
    ensures
        name@ == note_name_spec(solfege, pitch_class as int),
{
    if solfege {
        solfege_name(pitch_class)
    } else {
        letter_name(pitch_class)
    }
}

/// Where a note sits: its pitch class (0 = C … 11 = B) and its octave in scientific pitch
/// notation (middle C, MIDI 60, is C4).
#[derive(Clone, Copy, Debug, PartialEq, Eq)]
pub struct NotePosition {
    pub pitch_class: usize,
    pub octave: i32,
}

/// The pitch class of a MIDI note number; Euclidean, so it holds below MIDI 0 as well.
pub open spec fn midi_pitch_class(midi: int) -> int {
    midi % 12
}

/// The scientific-pitch octave of a MIDI note number; floor division, so a note below MIDI 0
/// lands in the octave that its pitch class belongs to.
pub open spec fn midi_octave(midi: int) -> int {
    midi / 12 - 1
}

/// Places a MIDI note number (69 = A4) on the chromatic circle and in its octave.
pub fn note_position(midi: i32) -> (pos: NotePosition)
    ensures
        pos.pitch_class == midi_pitch_class(midi as int),
        pos.octave == midi_octave(midi as int),
        pos.pitch_class < SEMITONES,
        12 * (pos.octave + 1) + pos.pitch_class == midi,
{
    if midi >= 0 {
        let m: u32 = midi as u32;
        let q: u32 = m / 12;
        let r: u32 = m % 12;
        NotePosition { pitch_class: r as usize, octave: (q as i32) - 1 }
    } else {
        // Count down from -1: -1 is B in octave -2, -12 is C in octave -2, -13 is B in -3.
        let m: u32 = (-(midi + 1)) as u32;
        let q: u32 = m / 12;
        let r: u32 = m % 12;
        assert(midi == -12 * (q + 1) + (11 - r));
        NotePosition { pitch_class: (11 - r) as usize, octave: -(q as i32) - 2 }
    }
}

/// Both naming conventions mark the same five pitch classes as sharps: a name ends in `#`
/// exactly on a black key, in letters and in solfège alike.
pub proof fn lemma_conventions_agree_on_sharps(solfege: bool, pitch_class: int)
    requires
        0 <= pitch_class < 12,
    ensures
        note_name_spec(solfege, pitch_class).last() == '#' <==> is_accidental(pitch_class),
        note_name_spec(solfege, pitch_class).len() > 0,
{
}

/// An octave up keeps the pitch class and raises the octave number by one.
pub proof fn lemma_octave_up(midi: int)
    ensures
        midi_pitch_class(midi + 12) == midi_pitch_class(midi),
        midi_octave(midi + 12) == midi_octave(midi) + 1,
{
}

/// A pitch class and an octave name exactly one MIDI note: two notes with the same position are
/// the same note.
pub proof fn lemma_position_identifies_note(a: int, b: int)
    requires
        midi_pitch_class(a) == midi_pitch_class(b),
        midi_octave(a) == midi_octave(b),
    ensures
        a == b,
{
}


/// The seven natural letters in chromatic order.
pub open spec fn natural_letters() -> Seq<char> {
    seq!['C', 'D', 'E', 'F', 'G', 'A', 'B']
}

/// The twelve letter names are exactly C, C#, D, D#, E, F, F#, G, G#, A, A#, B in that order:
/// the natural pitch classes carry the seven letters in order, each sharp is the name below it
/// with `#`, and no two pitch classes share a name.
pub proof fn lemma_letter_names(pc: int, other: int)
    requires
        0 <= pc < 12,
        0 <= other < 12,
    ensures
        letter_name_spec(pc) == seq![
            seq!['C'], seq!['C', '#'], seq!['D'], seq!['D', '#'], seq!['E'], seq!['F'],
            seq!['F', '#'], seq!['G'], seq!['G', '#'], seq!['A'], seq!['A', '#'], seq!['B']
        ][pc],
        !is_accidental(pc) ==> letter_name_spec(pc).len() == 1,
        is_accidental(pc) ==> letter_name_spec(pc) == letter_name_spec(pc - 1).push('#'),
        pc == 0 ==> letter_name_spec(pc) == seq![natural_letters()[0]],
        pc == 2 ==> letter_name_spec(pc) == seq![natural_letters()[1]],
        pc == 4 ==> letter_name_spec(pc) == seq![natural_letters()[2]],
        pc == 5 ==> letter_name_spec(pc) == seq![natural_letters()[3]],
        pc == 7 ==> letter_name_spec(pc) == seq![natural_letters()[4]],
        pc == 9 ==> letter_name_spec(pc) == seq![natural_letters()[5]],
        pc == 11 ==> letter_name_spec(pc) == seq![natural_letters()[6]],
        pc != other ==> letter_name_spec(pc) != letter_name_spec(other),
{
    let a = letter_name_spec(pc);
    let b = letter_name_spec(other);
    if pc != other && a == b {
        assert(a.len() == b.len());
        assert(a[0] == b[0]);
    }
}

/// The solfège syllable of a natural letter: C Do, D Re, E Mi, F Fa, G Sol, A La, B Si.
pub open spec fn syllable_of(letter: char) -> Seq<char> {
    if letter == 'C' { seq!['D', 'o'] }
    else if letter == 'D' { seq!['R', 'e'] }
    else if letter == 'E' { seq!['M', 'i'] }
    else if letter == 'F' { seq!['F', 'a'] }
    else if letter == 'G' { seq!['S', 'o', 'l'] }
    else if letter == 'A' { seq!['L', 'a'] }
    else { seq!['S', 'i'] }
}

/// The twelve solfège names are exactly Do, Do#, Re, Re#, Mi, Fa, Fa#, Sol, Sol#, La, La#, Si in
/// that order: each is the syllable of the letter name's letter, with `#` on the same pitch
/// classes, and no two pitch classes share a name.
pub proof fn lemma_solfege_names(pc: int, other: int)
    requires
        0 <= pc < 12,
        0 <= other < 12,
    ensures
        solfege_name_spec(pc) == seq![
            seq!['D', 'o'], seq!['D', 'o', '#'], seq!['R', 'e'], seq!['R', 'e', '#'],
            seq!['M', 'i'], seq!['F', 'a'], seq!['F', 'a', '#'], seq!['S', 'o', 'l'],
            seq!['S', 'o', 'l', '#'], seq!['L', 'a'], seq!['L', 'a', '#'], seq!['S', 'i']
        ][pc],
        !is_accidental(pc) ==> solfege_name_spec(pc) == syllable_of(letter_name_spec(pc)[0]),
        is_accidental(pc) ==> solfege_name_spec(pc) == syllable_of(letter_name_spec(pc)[0]).push(
            '#',
        ),
        is_accidental(pc) ==> solfege_name_spec(pc) == solfege_name_spec(pc - 1).push('#'),
        pc != other ==> solfege_name_spec(pc) != solfege_name_spec(other),
{
    let a = solfege_name_spec(pc);
    let b = solfege_name_spec(other);
    if pc != other && a == b {
        assert(a.len() == b.len());
        assert(a[0] == b[0]);
        assert(a[1] == b[1]);
    }
}

} // verus!
