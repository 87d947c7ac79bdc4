//! What the current reading means for the display: one source of truth for the status pill, the
//! colour of the note sticker, which way the chevrons point and whether the sticker rings.
//!
//! The caller reduces the reading to four facts: whether a pitch is heard at all, whether it is
//! in tune, and whether it lies above or below the nearest note.

use vstd::prelude::*;

verus! {

/// The four states the tuner shows.
#[derive(Clone, Copy, Debug, PartialEq, Eq, Structural)]
pub enum TuneState {
    /// Nothing confident is heard.
    Listening,
    /// Heard, and within the in-tune window.
    InTune,
    /// Heard, out of tune, above the note: tune down.
    Sharp,
    /// Heard, out of tune, and not above the note: tune up.
    Flat,
}

/// Which palette colour the note sticker takes.
#[derive(Clone, Copy, Debug, PartialEq, Eq, Structural)]
pub enum StateColour {
    Muted,
    Accent,
    Warning,
    Error,
}

/// A reading reduced to what the display decides on.
#[derive(Clone, Copy, Debug, PartialEq, Eq, Structural)]
pub struct Reading {
    /// A fundamental was heard (its frequency is positive).
    pub has_pitch: bool,
    /// The pitch is within the in-tune window.
    pub in_tune: bool,
    /// The pitch lies above the nearest note (positive cents).
    pub above: bool,
    /// The pitch lies below the nearest note (negative cents).
    pub below: bool,
}

impl Reading {
    pub open spec fn state_spec(self) -> TuneState {
        if !self.has_pitch {
            TuneState::Listening
        } else if self.in_tune {
            TuneState::InTune
        } else if self.above {
            TuneState::Sharp
        } else {
            TuneState::Flat
        }
    }

    /// The state the display shows for this reading.
    pub fn state(&self) -> (s: TuneState)
        ensures
            s == self.state_spec(),
            (s == TuneState::Listening) <==> !self.has_pitch,
            self.has_pitch && self.in_tune ==> s == TuneState::InTune,
            self.has_pitch && !self.in_tune && self.above ==> s == TuneState::Sharp,
            self.has_pitch && !self.in_tune && !self.above ==> s == TuneState::Flat,
    {
        if !self.has_pitch {
            TuneState::Listening
        } else if self.in_tune {
            TuneState::InTune
        } else if self.above {
            TuneState::Sharp
        } else {
            TuneState::Flat
        }
    }

    /// Whether the chevrons above the note show: heard, out of tune and below the note, so the
    /// string wants raising.
    pub fn chevrons_up(&self) -> (up: bool)
        ensures
            up == (self.has_pitch && !self.in_tune && self.below),
    {
        self.has_pitch && !self.in_tune && self.below
    }

    /// Whether the chevrons below the note show: heard, out of tune and above the note, so the
    /// string wants lowering.
    pub fn chevrons_down(&self) -> (down: bool)
        ensures
            down == (self.has_pitch && !self.in_tune && self.above),
            down ==> self.state_spec() == TuneState::Sharp,
    {
        self.has_pitch && !self.in_tune && self.above
    }

    /// Whether the note sticker rings: it does while a heard note is off, and falls still once
    /// the note locks in or nothing is heard.
    pub fn rings(&self) -> (r: bool)
        ensures
            r == (self.has_pitch && !self.in_tune),
            r <==> (self.state_spec() == TuneState::Sharp || self.state_spec() == TuneState::Flat),
    {
        self.has_pitch && !self.in_tune
    }
}

impl TuneState {
    pub open spec fn colour_spec(self) -> StateColour {
        match self {
            TuneState::Listening => StateColour::Muted,
            TuneState::InTune => StateColour::Accent,
            TuneState::Sharp => StateColour::Warning,
            TuneState::Flat => StateColour::Error,
        }
    }

    pub open spec fn chip_label_spec(self) -> Seq<char> {
        match self {
            TuneState::Listening => seq!['L', 'I', 'S', 'T', 'E', 'N', 'I', 'N', 'G'],
            TuneState::InTune => seq!['I', 'N', ' ', 'T', 'U', 'N', 'E'],
            TuneState::Sharp => seq!['S', 'H', 'A', 'R', 'P', ' ', ' ', '↓'],
            TuneState::Flat => seq!['F', 'L', 'A', 'T', ' ', ' ', '↑'],
        }
    }

    pub open spec fn chip_class_spec(self) -> Seq<char> {
        match self {
            TuneState::Listening => seq!['i', 'd', 'l', 'e'],
            TuneState::InTune => seq!['t', 'u', 'n', 'e'],
            TuneState::Sharp => seq!['s', 'h', 'a', 'r', 'p'],
            TuneState::Flat => seq!['f', 'l', 'a', 't'],
        }
    }

    /// The colour of the note sticker: muted while listening, the accent once in tune, the
    /// warning colour when sharp and the error colour when flat.
    pub fn colour(&self) -> (c: StateColour)
        ensures
            c == self.colour_spec(),
    {
        match self {
            TuneState::Listening => StateColour::Muted,
            TuneState::InTune => StateColour::Accent,
            TuneState::Sharp => StateColour::Warning,
            TuneState::Flat => StateColour::Error,
        }
    }

    /// The text of the status pill; the arrow says which way to turn the peg.
    pub fn chip_label(&self) -> (label: &'static str)
        ensures
            label@ == self.chip_label_spec(),
    {
        proof {
            reveal_strlit("LISTENING");
            reveal_strlit("IN TUNE");
            reveal_strlit("SHARP  ↓");
            reveal_strlit("FLAT  ↑");
        }
        match self {
            TuneState::Listening => "LISTENING",
            TuneState::InTune => "IN TUNE",
            TuneState::Sharp => "SHARP  ↓",
            TuneState::Flat => "FLAT  ↑",
        }
    }

    /// The style class that colours the status pill.
    pub fn chip_class(&self) -> (class: &'static str)
        ensures
            class@ == self.chip_class_spec(),
    {
        proof {
            reveal_strlit("idle");
            reveal_strlit("tune");
            reveal_strlit("sharp");
            reveal_strlit("flat");
        }
        match self {
            TuneState::Listening => "idle",
            TuneState::InTune => "tune",
            TuneState::Sharp => "sharp",
            TuneState::Flat => "flat",
        }
    }

    /// Whether a note is heard, so the readout shows in place of the hint.
    pub fn shows_readout(&self) -> (b: bool)
        ensures
            b <==> *self != TuneState::Listening,
    {
        match self {
            TuneState::Listening => false,
            _ => true,
        }
    }
}

/// The chevrons never point both ways at once: a reading is not above and below its note
/// together, so at most one row shows, none while in tune or while listening, and the row that
/// shows agrees with the pill (up when flat, down when sharp).
pub proof fn lemma_chevrons_exclusive(r: Reading)
    requires
        !(r.above && r.below),
    ensures
        !((r.has_pitch && !r.in_tune && r.below) && (r.has_pitch && !r.in_tune && r.above)),
        r.state_spec() == TuneState::InTune ==> !(r.has_pitch && !r.in_tune && r.below) && !(
        r.has_pitch && !r.in_tune && r.above),
        r.state_spec() == TuneState::Listening ==> !(r.has_pitch && !r.in_tune && r.below) && !(
        r.has_pitch && !r.in_tune && r.above),
        (r.has_pitch && !r.in_tune && r.below) ==> r.state_spec() == TuneState::Flat,
        (r.has_pitch && !r.in_tune && r.above) ==> r.state_spec() == TuneState::Sharp,
{
}

/// Every state has a pill text, a pill class and a sticker colour of its own, so the pill and the
/// sticker always tell the same story.
pub proof fn lemma_state_presentation_distinct(a: TuneState, b: TuneState)
    requires
        a != b,
    ensures
        a.colour_spec() != b.colour_spec(),
        a.chip_class_spec() != b.chip_class_spec(),
        a.chip_label_spec() != b.chip_label_spec(),
{
    if a.chip_class_spec() == b.chip_class_spec() {
        assert(a.chip_class_spec()[0] == b.chip_class_spec()[0]);
    }
    if a.chip_label_spec() == b.chip_label_spec() {
        assert(a.chip_label_spec()[0] == b.chip_label_spec()[0]);
        assert(a.chip_label_spec()[1] == b.chip_label_spec()[1]);
    }
}


/// What the tuner shows follows the reading: it listens exactly when no pitch is heard; a heard
/// pitch inside the in-tune window is in tune whichever side of the note it lies; a heard pitch
/// outside it is sharp above the note and flat otherwise. The pill and the sticker follow: the
/// readout shows exactly when a pitch is heard, the accent exactly when in tune.
pub proof fn lemma_state_follows_reading(r: Reading)
    ensures
        (r.state_spec() == TuneState::Listening) <==> !r.has_pitch,
        (r.state_spec() == TuneState::InTune) <==> (r.has_pitch && r.in_tune),
        (r.state_spec() == TuneState::Sharp) <==> (r.has_pitch && !r.in_tune && r.above),
        (r.state_spec() == TuneState::Flat) <==> (r.has_pitch && !r.in_tune && !r.above),
        (r.state_spec().colour_spec() == StateColour::Muted) <==> !r.has_pitch,
        (r.state_spec().colour_spec() == StateColour::Accent) <==> (r.has_pitch && r.in_tune),
        (r.state_spec().colour_spec() == StateColour::Warning) <==> (r.has_pitch && !r.in_tune
            && r.above),
        (r.state_spec().colour_spec() == StateColour::Error) <==> (r.has_pitch && !r.in_tune
            && !r.above),
        (r.state_spec().chip_class_spec() == seq!['i', 'd', 'l', 'e']) <==> !r.has_pitch,
        (r.state_spec().chip_class_spec() == seq!['t', 'u', 'n', 'e']) <==> (r.has_pitch
            && r.in_tune),
        (r.state_spec().chip_label_spec() == seq!['I', 'N', ' ', 'T', 'U', 'N', 'E']) <==> (
        r.has_pitch && r.in_tune),
        (r.state_spec().chip_class_spec() == seq!['s', 'h', 'a', 'r', 'p']) <==> (r.has_pitch
            && !r.in_tune && r.above),
        (r.state_spec().chip_class_spec() == seq!['f', 'l', 'a', 't']) <==> (r.has_pitch
            && !r.in_tune && !r.above),
        (r.state_spec().chip_label_spec() == seq![
            'L', 'I', 'S', 'T', 'E', 'N', 'I', 'N', 'G'
        ]) <==> !r.has_pitch,
        (r.state_spec().chip_label_spec() == seq!['S', 'H', 'A', 'R', 'P', ' ', ' ', '↓'])
            <==> (r.has_pitch && !r.in_tune && r.above),
        (r.state_spec().chip_label_spec() == seq!['F', 'L', 'A', 'T', ' ', ' ', '↑']) <==> (
        r.has_pitch && !r.in_tune && !r.above),
{
    let st = r.state_spec();
    if st.chip_class_spec() == seq!['i', 'd', 'l', 'e'] {
        assert(st.chip_class_spec()[0] == 'i');
    }
    if st.chip_class_spec() == seq!['t', 'u', 'n', 'e'] {
        assert(st.chip_class_spec()[0] == 't');
    }
    let l = st.chip_label_spec();
    let c = st.chip_class_spec();
    assert(l.len() > 1 && c.len() > 0);
    assert(l[0] == l[0] && l[1] == l[1] && c[0] == c[0]);
    if l == seq!['I', 'N', ' ', 'T', 'U', 'N', 'E'] {
        assert(l[0] == 'I' && l[1] == 'N');
    }
    if l == seq!['L', 'I', 'S', 'T', 'E', 'N', 'I', 'N', 'G'] {
        assert(l[0] == 'L');
    }
    if l == seq!['S', 'H', 'A', 'R', 'P', ' ', ' ', '↓'] {
        assert(l[0] == 'S');
    }
    if l == seq!['F', 'L', 'A', 'T', ' ', ' ', '↑'] {
        assert(l[0] == 'F');
    }
    if c == seq!['s', 'h', 'a', 'r', 'p'] {
        assert(c[0] == 's');
    }
    if c == seq!['f', 'l', 'a', 't'] {
        assert(c[0] == 'f');
    }
}

} // verus!
