//! The readout texts: whole numbers in decimal, the frequency-and-cents readout, the octave
//! number beside the note, the reference-pitch label, and how large the note name may be set.

use vstd::prelude::*;

verus! {

pub open spec fn digit_chars() -> Seq<char> {
    seq!['0', '1', '2', '3', '4', '5', '6', '7', '8', '9']
}

/// The decimal digits of a natural number, most significant first, without leading zeros.
pub open spec fn digits(n: nat) -> Seq<char>
    decreases n,
{
    if n < 10 {
        seq![digit_chars()[n as int]]
    } else {
        digits(n / 10).push(digit_chars()[(n % 10) as int])
    }
}

/// An integer in decimal, with a leading `-` when it is negative.
pub open spec fn decimal(n: int) -> Seq<char> {
    if n < 0 {
        seq!['-'] + digits((-n) as nat)
    } else {
        digits(n as nat)
    }
}

/// The readout under the note: the frequency in whole hertz and the deviation in whole cents,
/// the cents always signed (`+0` when dead on).
pub open spec fn readout_spec(hz: int, cents: int) -> Seq<char> {
    decimal(hz) + seq![' ', 'H', 'z', ' ', ' ', '·', ' ', ' '] + (if cents >= 0 {
        seq!['+']
    } else {
        Seq::empty()
    }) + decimal(cents) + seq![' ', 'c', 'e', 'n', 't', 's']
}

fn digit_text(d: u32) -> (s: &'static str)
    requires
        d < 10,
    ensures
        s@ == seq![digit_chars()[d as int]],
{
    proof {
        reveal_strlit("0");
        reveal_strlit("1");
        reveal_strlit("2");
        reveal_strlit("3");
        reveal_strlit("4");
        reveal_strlit("5");
        reveal_strlit("6");
        reveal_strlit("7");
        reveal_strlit("8");
        reveal_strlit("9");
    }
    match d {
        0 => "0",
        1 => "1",
        2 => "2",
        3 => "3",
        4 => "4",
        5 => "5",
        6 => "6",
        7 => "7",
        8 => "8",
        _ => "9",
    }
}

fn append_digits(out: &mut String, m: u32)
    ensures
        final(out)@ == old(out)@ + digits(m as nat),
    decreases m,
{
    if m >= 10 {
        append_digits(out, m / 10);
    }
    out.append(digit_text(m % 10));
    proof {
        if m >= 10 {
            assert(old(out)@ + digits((m / 10) as nat) + seq![digit_chars()[(m % 10) as int]]
                =~= old(out)@ + digits(m as nat));
        } else {
            assert(old(out)@ + seq![digit_chars()[(m % 10) as int]] =~= old(out)@ + digits(
                m as nat,
            ));
        }
    }
}

/// Appends `n` in decimal to `out`.
fn append_decimal(out: &mut String, n: i32)
    ensures
        final(out)@ == old(out)@ + decimal(n as int),
{
    if n < 0 {
        proof {
            reveal_strlit("-");
        }
        out.append("-");
        let m: u32 = (-(n as i64)) as u32;
        append_digits(out, m);
        proof {
            assert(old(out)@ + seq!['-'] + digits(m as nat) =~= old(out)@ + decimal(n as int));
        }
    } else {
        append_digits(out, n as u32);
    }
}

/// A whole number in decimal, as the octave beside the note shows it.
pub fn decimal_text(n: i32) -> (s: String)
    ensures
        s@ == decimal(n as int),
{
    let mut s = String::new();
    append_decimal(&mut s, n);
    proof {
        assert(Seq::<char>::empty() + decimal(n as int) =~= decimal(n as int));
    }
    s
}

/// The readout under the note, from the frequency and the deviation rounded to whole numbers:
/// `440 Hz  ·  +0 cents`, `438 Hz  ·  -8 cents`.
pub fn readout(hz: i32, cents: i32) -> (s: String)
    ensures
        s@ == readout_spec(hz as int, cents as int),
{
    proof {
        reveal_strlit(" Hz  ·  ");
        reveal_strlit("+");
        reveal_strlit(" cents");
    }
    let mut s = String::new();
    append_decimal(&mut s, hz);
    s.append(" Hz  ·  ");
    if cents >= 0 {
        s.append("+");
    }
    append_decimal(&mut s, cents);
    s.append(" cents");
    proof {
        assert(s@ =~= readout_spec(hz as int, cents as int));
    }
    s
}

/// The label of a reference pitch in whole hertz: `440 Hz`.
pub fn hz_text(hz: i32) -> (s: String)
    ensures
        s@ == decimal(hz as int) + seq![' ', 'H', 'z'],
{
    proof {
        reveal_strlit(" Hz");
    }
    let mut s = String::new();
    append_decimal(&mut s, hz);
    s.append(" Hz");
    proof {
        assert(s@ =~= decimal(hz as int) + seq![' ', 'H', 'z']);
    }
    s
}

/// How large the note name is set inside the sticker: longer names take a smaller share so that
/// they stay inside the scallops.
#[derive(Clone, Copy, Debug, PartialEq, Eq, Structural)]
pub enum NoteSize {
    /// Up to two characters (`A`, `C#`, `Do`).
    Large,
    /// Three characters (`Do#`, `Sol`).
    Medium,
    /// Four or more (`Sol#`).
    Small,
}

pub open spec fn note_size_spec(len: nat) -> NoteSize {
    if len <= 2 {
        NoteSize::Large
    } else if len == 3 {
        NoteSize::Medium
    } else {
        NoteSize::Small
    }
}

/// The size class of a note name, by its number of characters.
pub fn note_size(name: &str) -> (size: NoteSize)
    ensures
        size == note_size_spec(name@.len()),
{
    let n = name.unicode_len();
    if n <= 2 {
        NoteSize::Large
    } else if n == 3 {
        NoteSize::Medium
    } else {
        NoteSize::Small
    }
}

} // verus!
