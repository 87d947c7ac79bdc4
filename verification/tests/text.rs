use vibes::text::{decimal_text, hz_text, note_size, readout, NoteSize};

#[test]
fn decimals() {
    assert_eq!(decimal_text(0), "0");
    assert_eq!(decimal_text(4), "4");
    assert_eq!(decimal_text(-2), "-2");
    assert_eq!(decimal_text(1200), "1200");
    assert_eq!(decimal_text(i32::MAX), i32::MAX.to_string());
    assert_eq!(decimal_text(i32::MIN), i32::MIN.to_string());
}

#[test]
fn readout_signs_the_cents() {
    assert_eq!(readout(440, 0), "440 Hz  ·  +0 cents");
    assert_eq!(readout(438, -8), "438 Hz  ·  -8 cents");
    assert_eq!(readout(82, 21), "82 Hz  ·  +21 cents");
}

#[test]
fn hz_label() {
    assert_eq!(hz_text(440), "440 Hz");
    assert_eq!(hz_text(415), "415 Hz");
}

#[test]
fn longer_names_are_set_smaller() {
    assert_eq!(note_size(""), NoteSize::Large);
    assert_eq!(note_size("A"), NoteSize::Large);
    assert_eq!(note_size("C#"), NoteSize::Large);
    assert_eq!(note_size("Do"), NoteSize::Large);
    assert_eq!(note_size("Sol"), NoteSize::Medium);
    assert_eq!(note_size("Do#"), NoteSize::Medium);
    assert_eq!(note_size("Sol#"), NoteSize::Small);
}
