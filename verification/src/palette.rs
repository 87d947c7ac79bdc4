//! The integer side of the colour scheme: which of the theme's hue families the three wave bands
//! are drawn from, given the user's accent colour, and the byte channels of a packed RGB colour.

use vstd::prelude::*;

verus! {

/// The accent colours the desktop offers, plus any it may add later.
#[derive(Clone, Copy, Debug, PartialEq, Eq, Structural)]
pub enum AccentColor {
    Blue,
    Teal,
    Green,
    Yellow,
    Orange,
    Red,
    Pink,
    Purple,
    Slate,
    /// An accent this library does not know; it is treated as blue.
    Other,
}

/// The number of hue families on the wheel.
pub const WHEEL_LEN: usize = 6;

/// Where an accent sits on the wheel of hue families (blue, purple, red, orange, yellow, green).
/// Teal, pink and slate have no family of their own and borrow their nearest neighbour's.
pub open spec fn wheel_index_spec(accent: AccentColor) -> int {
    match accent {
        AccentColor::Purple | AccentColor::Pink => 1,
        AccentColor::Red => 2,
        AccentColor::Orange => 3,
        AccentColor::Yellow => 4,
        AccentColor::Green | AccentColor::Teal => 5,
        _ => 0,
    }
}

/// The theme's hue families in wheel order: blue, purple, red, orange, yellow, green.
pub open spec fn wheel_families() -> Seq<Seq<char>> {
    seq![
        seq!['b', 'l', 'u', 'e'],
        seq!['p', 'u', 'r', 'p', 'l', 'e'],
        seq!['r', 'e', 'd'],
        seq!['o', 'r', 'a', 'n', 'g', 'e'],
        seq!['y', 'e', 'l', 'l', 'o', 'w'],
        seq!['g', 'r', 'e', 'e', 'n'],
    ]
}

/// The name of the hue family at a place on the wheel.
pub open spec fn family_spec(i: int) -> Seq<char> {
    if i == 0 {
        seq!['b', 'l', 'u', 'e']
    } else if i == 1 {
        seq!['p', 'u', 'r', 'p', 'l', 'e']
    } else if i == 2 {
        seq!['r', 'e', 'd']
    } else if i == 3 {
        seq!['o', 'r', 'a', 'n', 'g', 'e']
    } else if i == 4 {
        seq!['y', 'e', 'l', 'l', 'o', 'w']
    } else {
        seq!['g', 'r', 'e', 'e', 'n']
    }
}

/// The shade taken from each family: a pale one over a light window, a deep one over a dark one.
pub open spec fn shade_char(dark: bool) -> char {
    if dark { '5' } else { '1' }
}

/// The named theme colour of band `i`: the families walk the wheel from the accent's own.
pub open spec fn band_colour_spec(accent: AccentColor, dark: bool, i: int) -> Seq<char> {
    family_spec((wheel_index_spec(accent) + i) % (WHEEL_LEN as int)) + seq!['_', shade_char(dark)]
}

/// The accent's place on the wheel.
pub fn wheel_index(accent: AccentColor) -> (i: usize)
    ensures
        i == wheel_index_spec(accent),
        i < WHEEL_LEN,
{
    match accent {
        AccentColor::Purple | AccentColor::Pink => 1,
        AccentColor::Red => 2,
        AccentColor::Orange => 3,
        AccentColor::Yellow => 4,
        AccentColor::Green | AccentColor::Teal => 5,
        _ => 0,
    }
}

fn family_name(i: usize) -> (name: &'static str)
    requires
        i < WHEEL_LEN,
    ensures
        name@ == family_spec(i as int),
{
    proof {
        reveal_strlit("blue");
        reveal_strlit("purple");
        reveal_strlit("red");
        reveal_strlit("orange");
        reveal_strlit("yellow");
        reveal_strlit("green");
    }
    match i {
        0 => "blue",
        1 => "purple",
        2 => "red",
        3 => "orange",
        4 => "yellow",
        _ => "green",
    }
}

/// The names of the three theme colours the wave bands are drawn from, such as `blue_1`,
/// `purple_1`, `red_1` for the default accent on a light window.
pub fn band_colour_names(accent: AccentColor, dark: bool) -> (names: Vec<String>)
    ensures
        names@.len() == 3,
        forall|i: int| 0 <= i < 3 ==> #[trigger] names@[i]@ == band_colour_spec(accent, dark, i),
        forall|i: int|
            0 <= i < 3 ==> #[trigger] names@[i]@ == wheel_families()[(wheel_index_spec(accent) + i)
                % 6] + seq!['_', if dark { '5' } else { '1' }],
{
    proof {
        reveal_strlit("_5");
        reveal_strlit("_1");
    }
    let start = wheel_index(accent);
    let suffix = if dark { "_5" } else { "_1" };
    let mut names: Vec<String> = Vec::new();
    let mut i: usize = 0;
    while i < 3
        invariant
            i <= 3,
            start == wheel_index_spec(accent),
            start < WHEEL_LEN,
            suffix@ == seq!['_', shade_char(dark)],
            names@.len() == i,
            forall|j: int| 0 <= j < i ==> #[trigger] names@[j]@ == band_colour_spec(accent, dark, j),
        decreases 3 - i,
    {
        let mut name = family_name((start + i) % WHEEL_LEN).to_owned();
        name.append(suffix);
        names.push(name);
        i = i + 1;
    }
    names
}

/// The three wave bands are three different hue families, next to one another on the wheel,
/// the first being the accent's own.
pub proof fn lemma_bands_distinct(accent: AccentColor, dark: bool, i: int, j: int)
    requires
        0 <= i < 3,
        0 <= j < 3,
        i != j,
    ensures
        band_colour_spec(accent, dark, i) != band_colour_spec(accent, dark, j),
        band_colour_spec(accent, dark, 0) == family_spec(wheel_index_spec(accent)) + seq![
            '_',
            shade_char(dark),
        ],
{
    let a = (wheel_index_spec(accent) + i) % 6;
    let b = (wheel_index_spec(accent) + j) % 6;
    assert(a != b);
    if band_colour_spec(accent, dark, i) == band_colour_spec(accent, dark, j) {
        assert(band_colour_spec(accent, dark, i)[0] == band_colour_spec(accent, dark, j)[0]);
    }
}

/// The red, green and blue bytes of a colour written as `0xRRGGBB`.
pub fn rgb_bytes(v: u32) -> (c: (u8, u8, u8))
    ensures
        c.0 == (v >> 16) & 0xff,
        c.1 == (v >> 8) & 0xff,
        c.2 == v & 0xff,
        c.0 * 0x10000 + c.1 * 0x100 + c.2 == v % 0x1000000,
{
    let r = ((v >> 16) & 0xff) as u8;
    let g = ((v >> 8) & 0xff) as u8;
    let b = (v & 0xff) as u8;
    assert(((v >> 16) & 0xff) * 0x10000 + ((v >> 8) & 0xff) * 0x100 + (v & 0xff) == v % 0x1000000)
        by (bit_vector);
    assert((v >> 16) & 0xff < 256 && (v >> 8) & 0xff < 256 && v & 0xff < 256) by (bit_vector);
    (r, g, b)
}


/// The wheel holds exactly the six families blue, purple, red, orange, yellow, green, each once,
/// and the first wave band is always the accent's own family: orange for an orange accent,
/// purple for purple and pink, green for green and teal, red for red, yellow for yellow, and
/// blue for blue, slate and anything else.
pub proof fn lemma_wheel_families(i: int, j: int, accent: AccentColor, dark: bool)
    requires
        0 <= i < 6,
        0 <= j < 6,
    ensures
        family_spec(i) == wheel_families()[i],
        i != j ==> family_spec(i) != family_spec(j),
        band_colour_spec(accent, dark, 0) == (match accent {
            AccentColor::Purple | AccentColor::Pink => seq!['p', 'u', 'r', 'p', 'l', 'e'],
            AccentColor::Red => seq!['r', 'e', 'd'],
            AccentColor::Orange => seq!['o', 'r', 'a', 'n', 'g', 'e'],
            AccentColor::Yellow => seq!['y', 'e', 'l', 'l', 'o', 'w'],
            AccentColor::Green | AccentColor::Teal => seq!['g', 'r', 'e', 'e', 'n'],
            _ => seq!['b', 'l', 'u', 'e'],
        }) + seq!['_', if dark { '5' } else { '1' }],
{
    if i != j && family_spec(i) == family_spec(j) {
        assert(family_spec(i)[0] == family_spec(j)[0]);
    }
}

} // verus!
