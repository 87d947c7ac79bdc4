//! The preferences' own logic: the pitch standards offered as presets, the tick marks on the two
//! sliders, and the live preview of concert A in the chosen naming.

use vstd::prelude::*;
use crate::pitch::{note_name, note_name_spec};

verus! {

/// The lowest reference pitch offered, in hertz.
pub const A4_MIN_HZ: u32 = 415;
/// The highest reference pitch offered, in hertz.
pub const A4_MAX_HZ: u32 = 466;
/// Modern concert pitch, the default reference.
pub const A4_DEFAULT_HZ: u32 = 440;
/// The shortest sustain offered, in tenths of a second.
pub const SUSTAIN_MIN_TENTHS: u32 = 5;
/// The longest sustain offered, in tenths of a second.
pub const SUSTAIN_MAX_TENTHS: u32 = 25;
/// The default sustain, in tenths of a second.
pub const SUSTAIN_DEFAULT_TENTHS: u32 = 12;
/// The number of preset pitch standards.
pub const PRESET_COUNT: u32 = 5;

/// The pitch standards people tune to, in order: baroque, 432, ISO 16, and the two orchestral
/// ones.
pub open spec fn preset_spec(index: int) -> Option<u32> {
    if index == 0 {
        Some(415)
    } else if index == 1 {
        Some(432)
    } else if index == 2 {
        Some(440)
    } else if index == 3 {
        Some(442)
    } else if index == 4 {
        Some(443)
    } else {
        None
    }
}

/// The reference pitch of the preset at `index`, if there is one.
pub fn preset_hz(index: u32) -> (hz: Option<u32>)
    ensures
        hz == preset_spec(index as int),
{
    match index {
        0 => Some(415),
        1 => Some(432),
        2 => Some(440),
        3 => Some(442),
        4 => Some(443),
        _ => None,
    }
}

/// The preset whose pitch is `hz`, if one is.
pub fn preset_index(hz: u32) -> (index: Option<u32>)
    ensures
        match index {
            Some(i) => preset_spec(i as int) == Some(hz),
            None => forall|i: int| #[trigger] preset_spec(i) != Some(hz),
        },
{
    let mut i: u32 = 0;
    while i < PRESET_COUNT
        invariant
            i <= PRESET_COUNT,
            forall|j: int| 0 <= j < i ==> #[trigger] preset_spec(j) != Some(hz),
        decreases PRESET_COUNT - i,
    {
        if preset_hz(i) == Some(hz) {
            return Some(i);
        }
        i = i + 1;
    }
    assert forall|j: int| #[trigger] preset_spec(j) != Some(hz) by {
        if 0 <= j < PRESET_COUNT {
        }
    }
    None
}

/// Choosing a preset and finding the preset of a pitch undo each other: the presets are five
/// distinct pitches, each within the slider's range, and the default is one of them.
pub proof fn lemma_presets(index: int, hz: u32)
    ensures
        preset_spec(index) == Some(hz) ==> A4_MIN_HZ <= hz <= A4_MAX_HZ,
        preset_spec(index) is Some <==> 0 <= index < PRESET_COUNT,
        forall|j: int| #[trigger] preset_spec(j) == Some(hz) && preset_spec(index) == Some(hz) ==> j == index,
        preset_spec(2) == Some(A4_DEFAULT_HZ),
{
}

/// A tick on a slider: where it sits, and the label of the default step.
#[derive(Clone, Copy, Debug, PartialEq, Eq)]
pub struct Mark {
    pub at: u32,
    pub label: Option<&'static str>,
}

/// One tick per whole hertz across the reference-pitch slider, the default labelled `440`.
pub fn a4_marks() -> (marks: Vec<Mark>)
    ensures
        marks@.len() == A4_MAX_HZ - A4_MIN_HZ + 1,
        forall|i: int| 0 <= i < marks@.len() ==> {
            &&& #[trigger] marks@[i].at == A4_MIN_HZ + i
            &&& (marks@[i].label is Some <==> marks@[i].at == A4_DEFAULT_HZ)
            &&& (marks@[i].label matches Some(l) ==> l@ == seq!['4', '4', '0'])
        },
{
    proof {
        reveal_strlit("440");
    }
    let mut marks: Vec<Mark> = Vec::new();
    let mut hz: u32 = A4_MIN_HZ;
    while hz <= A4_MAX_HZ
        invariant
            A4_MIN_HZ <= hz <= A4_MAX_HZ + 1,
            "440"@ == seq!['4', '4', '0'],
            marks@.len() == hz - A4_MIN_HZ,
            forall|i: int| 0 <= i < marks@.len() ==> {
                &&& #[trigger] marks@[i].at == A4_MIN_HZ + i
                &&& (marks@[i].label is Some <==> marks@[i].at == A4_DEFAULT_HZ)
                &&& (marks@[i].label matches Some(l) ==> l@ == seq!['4', '4', '0'])
            },
        decreases A4_MAX_HZ + 1 - hz,
    {
        let label = if hz == A4_DEFAULT_HZ { Some("440") } else { None };
        marks.push(Mark { at: hz, label });
        hz = hz + 1;
    }
    marks
}

/// One tick per tenth of a second across the sustain slider (positions in tenths), the default
/// labelled `1.2`.
pub fn sustain_marks() -> (marks: Vec<Mark>)
    ensures
        marks@.len() == SUSTAIN_MAX_TENTHS - SUSTAIN_MIN_TENTHS + 1,
        forall|i: int| 0 <= i < marks@.len() ==> {
            &&& #[trigger] marks@[i].at == SUSTAIN_MIN_TENTHS + i
            &&& (marks@[i].label is Some <==> marks@[i].at == SUSTAIN_DEFAULT_TENTHS)
            &&& (marks@[i].label matches Some(l) ==> l@ == seq!['1', '.', '2'])
        },
{
    proof {
        reveal_strlit("1.2");
    }
    let mut marks: Vec<Mark> = Vec::new();
    let mut tenths: u32 = SUSTAIN_MIN_TENTHS;
    while tenths <= SUSTAIN_MAX_TENTHS
        invariant
            SUSTAIN_MIN_TENTHS <= tenths <= SUSTAIN_MAX_TENTHS + 1,
            "1.2"@ == seq!['1', '.', '2'],
            marks@.len() == tenths - SUSTAIN_MIN_TENTHS,
            forall|i: int| 0 <= i < marks@.len() ==> {
                &&& #[trigger] marks@[i].at == SUSTAIN_MIN_TENTHS + i
                &&& (marks@[i].label is Some <==> marks@[i].at == SUSTAIN_DEFAULT_TENTHS)
                &&& (marks@[i].label matches Some(l) ==> l@ == seq!['1', '.', '2'])
            },
        decreases SUSTAIN_MAX_TENTHS + 1 - tenths,
    {
        let label = if tenths == SUSTAIN_DEFAULT_TENTHS { Some("1.2") } else { None };
        marks.push(Mark { at: tenths, label });
        tenths = tenths + 1;
    }
    marks
}

/// The Pango markup after the note name in the preview: the octave, small and raised.
pub open spec fn preview_octave_markup() -> Seq<char> {
    seq![
        '<', 's', 'p', 'a', 'n', ' ', 's', 'i', 'z', 'e', '=', '"', '4', '5', '%', '"', ' ', 'r',
        'i', 's', 'e', '=', '"', '1', '6', 'p', 't', '"', '>', '4', '<', '/', 's', 'p', 'a', 'n',
        '>',
    ]
}

/// The preview of concert A in the chosen naming, the octave riding small and high beside the
/// note as it does in the tuner: `A` or `La`, then a raised `4`.
pub fn preview_note(solfege: bool) -> (markup: String)
    ensures
        markup@ == note_name_spec(solfege, 9) + preview_octave_markup(),
{
    proof {
        reveal_strlit("<span size=\"45%\" rise=\"16pt\">4</span>");
    }
    let mut markup = note_name(solfege, 9).to_owned();
    markup.append("<span size=\"45%\" rise=\"16pt\">4</span>");
    markup
}

} // verus!
