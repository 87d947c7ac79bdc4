use vibes::settings::{a4_marks, preset_hz, preset_index, preview_note, sustain_marks};

#[test]
fn presets_are_the_five_standards() {
    assert_eq!(preset_hz(0), Some(415));
    assert_eq!(preset_hz(1), Some(432));
    assert_eq!(preset_hz(2), Some(440));
    assert_eq!(preset_hz(3), Some(442));
    assert_eq!(preset_hz(4), Some(443));
    assert_eq!(preset_hz(5), None);
    assert_eq!(preset_hz(u32::MAX), None);
}

#[test]
fn a_pitch_finds_its_preset() {
    assert_eq!(preset_index(440), Some(2));
    assert_eq!(preset_index(443), Some(4));
    assert_eq!(preset_index(441), None);
    assert_eq!(preset_index(0), None);
    for i in 0..5 {
        assert_eq!(preset_index(preset_hz(i).unwrap()), Some(i));
    }
}

#[test]
fn the_sliders_tick_every_step() {
    let a4 = a4_marks();
    assert_eq!(a4.len(), 52);
    assert_eq!(a4[0].at, 415);
    assert_eq!(a4[51].at, 466);
    assert_eq!(a4.iter().filter(|m| m.label.is_some()).count(), 1);
    assert_eq!(a4[25].at, 440);
    assert_eq!(a4[25].label, Some("440"));

    let sustain = sustain_marks();
    assert_eq!(sustain.len(), 21);
    assert_eq!(sustain[0].at, 5);
    assert_eq!(sustain[20].at, 25);
    assert_eq!(sustain[7].at, 12);
    assert_eq!(sustain[7].label, Some("1.2"));
    assert_eq!(sustain.iter().filter(|m| m.label.is_some()).count(), 1);
}

#[test]
fn preview_shows_concert_a() {
    assert_eq!(preview_note(false), "A<span size=\"45%\" rise=\"16pt\">4</span>");
    assert_eq!(preview_note(true), "La<span size=\"45%\" rise=\"16pt\">4</span>");
}
