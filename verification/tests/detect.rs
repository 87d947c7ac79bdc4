use vibes::detect::{take_window, GraceHold, Recent};

#[test]
fn windows_are_cut_from_the_front() {
    let mut buf: Vec<u32> = (0..10).collect();
    assert_eq!(take_window(&mut buf, 4), Some(vec![0, 1, 2, 3]));
    assert_eq!(buf, vec![4, 5, 6, 7, 8, 9]);
    assert_eq!(take_window(&mut buf, 6), Some(vec![4, 5, 6, 7, 8, 9]));
    assert!(buf.is_empty());
    let mut short = vec![1, 2, 3];
    assert_eq!(take_window(&mut short, 4), None);
    assert_eq!(short, vec![1, 2, 3]);
}

#[test]
fn history_keeps_the_five_newest() {
    let mut h = Recent::new();
    for x in 1..=4 {
        h.push(x);
    }
    assert_eq!(h.values(), &[1, 2, 3, 4]);
    h.push(5);
    h.push(6);
    h.push(7);
    assert_eq!(h.values(), &[3, 4, 5, 6, 7]);
    assert_eq!(h.len(), 5);
    h.clear();
    assert_eq!(h.len(), 0);
}

#[test]
fn a_hold_lets_go_after_the_silence() {
    let mut g = GraceHold::new();
    assert!(!g.missed(5));
    assert!(!g.missed(5));
    assert!(!g.missed(5));
    assert!(!g.missed(5));
    assert!(g.missed(5));
    g.heard();
    assert_eq!(g.silent_windows, 0);
    assert!(!g.missed(5));
}

#[test]
fn a_hold_is_never_shorter_than_three_windows() {
    let mut g = GraceHold::new();
    assert!(!g.missed(0));
    assert!(!g.missed(1));
    assert!(g.missed(0));
}

#[test]
fn the_silence_count_stops_at_its_maximum() {
    let mut g = GraceHold { silent_windows: u32::MAX - 1 };
    assert!(g.missed(u32::MAX));
    assert!(g.missed(u32::MAX));
    assert_eq!(g.silent_windows, u32::MAX);
}
