use vibes::tuning::{Reading, StateColour, TuneState};

fn reading(has_pitch: bool, in_tune: bool, above: bool, below: bool) -> Reading {
    Reading { has_pitch, in_tune, above, below }
}

#[test]
fn silence_is_listening() {
    let r = reading(false, false, false, false);
    assert_eq!(r.state(), TuneState::Listening);
    assert_eq!(r.state().chip_label(), "LISTENING");
    assert_eq!(r.state().chip_class(), "idle");
    assert_eq!(r.state().colour(), StateColour::Muted);
    assert!(!r.state().shows_readout());
    assert!(!r.chevrons_up() && !r.chevrons_down() && !r.rings());
}

#[test]
fn in_tune_locks() {
    let r = reading(true, true, true, false);
    assert_eq!(r.state(), TuneState::InTune);
    assert_eq!(r.state().chip_label(), "IN TUNE");
    assert_eq!(r.state().chip_class(), "tune");
    assert_eq!(r.state().colour(), StateColour::Accent);
    assert!(r.state().shows_readout());
    assert!(!r.chevrons_up() && !r.chevrons_down() && !r.rings());
}

#[test]
fn sharp_points_down() {
    let r = reading(true, false, true, false);
    assert_eq!(r.state(), TuneState::Sharp);
    assert_eq!(r.state().chip_label(), "SHARP  ↓");
    assert_eq!(r.state().chip_class(), "sharp");
    assert_eq!(r.state().colour(), StateColour::Warning);
    assert!(r.chevrons_down() && !r.chevrons_up() && r.rings());
}

#[test]
fn flat_points_up() {
    let r = reading(true, false, false, true);
    assert_eq!(r.state(), TuneState::Flat);
    assert_eq!(r.state().chip_label(), "FLAT  ↑");
    assert_eq!(r.state().chip_class(), "flat");
    assert_eq!(r.state().colour(), StateColour::Error);
    assert!(r.chevrons_up() && !r.chevrons_down() && r.rings());
}

#[test]
fn dead_centre_but_out_of_tune_shows_no_chevron() {
    let r = reading(true, false, false, false);
    assert_eq!(r.state(), TuneState::Flat);
    assert!(!r.chevrons_up() && !r.chevrons_down());
    assert!(r.rings());
}

#[test]
fn a_silent_reading_ignores_its_other_facts() {
    let r = reading(false, true, true, false);
    assert_eq!(r.state(), TuneState::Listening);
    assert!(!r.chevrons_down() && !r.rings());
}
