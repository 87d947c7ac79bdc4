use vibes::palette::{band_colour_names, rgb_bytes, wheel_index, AccentColor};

#[test]
fn accents_find_their_family() {
    assert_eq!(wheel_index(AccentColor::Blue), 0);
    assert_eq!(wheel_index(AccentColor::Slate), 0);
    assert_eq!(wheel_index(AccentColor::Other), 0);
    assert_eq!(wheel_index(AccentColor::Purple), 1);
    assert_eq!(wheel_index(AccentColor::Pink), 1);
    assert_eq!(wheel_index(AccentColor::Red), 2);
    assert_eq!(wheel_index(AccentColor::Orange), 3);
    assert_eq!(wheel_index(AccentColor::Yellow), 4);
    assert_eq!(wheel_index(AccentColor::Green), 5);
    assert_eq!(wheel_index(AccentColor::Teal), 5);
}

#[test]
fn bands_walk_the_wheel_from_the_accent() {
    assert_eq!(band_colour_names(AccentColor::Blue, false), vec!["blue_1", "purple_1", "red_1"]);
    assert_eq!(band_colour_names(AccentColor::Blue, true), vec!["blue_5", "purple_5", "red_5"]);
    assert_eq!(
        band_colour_names(AccentColor::Yellow, false),
        vec!["yellow_1", "green_1", "blue_1"]
    );
    assert_eq!(band_colour_names(AccentColor::Teal, true), vec!["green_5", "blue_5", "purple_5"]);
}

#[test]
fn packed_colours_split_into_bytes() {
    assert_eq!(rgb_bytes(0xe5a50a), (0xe5, 0xa5, 0x0a));
    assert_eq!(rgb_bytes(0x3584e4), (0x35, 0x84, 0xe4));
    assert_eq!(rgb_bytes(0x000000), (0, 0, 0));
    assert_eq!(rgb_bytes(0xffffffff), (0xff, 0xff, 0xff));
}
