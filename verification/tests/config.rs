use vibes::config::{parse_config, render_config};

#[test]
fn reads_the_three_keys() {
    let cfg = parse_config("a4=442\nsustain=1.5\nsolfege=true\n");
    assert_eq!(cfg.a4, vec!["442".to_string()]);
    assert_eq!(cfg.sustain, vec!["1.5".to_string()]);
    assert_eq!(cfg.solfege, Some(true));
}

#[test]
fn an_empty_file_says_nothing() {
    let cfg = parse_config("");
    assert!(cfg.a4.is_empty());
    assert!(cfg.sustain.is_empty());
    assert_eq!(cfg.solfege, None);
}

#[test]
fn keys_and_values_are_trimmed() {
    let cfg = parse_config("  a4 =  415 \r\n\tsustain\t=\u{3000}2.0\u{a0}\n solfege = true ");
    assert_eq!(cfg.a4, vec!["415".to_string()]);
    assert_eq!(cfg.sustain, vec!["2.0".to_string()]);
    assert_eq!(cfg.solfege, Some(true));
}

#[test]
fn unknown_keys_and_lines_without_equals_are_ignored() {
    let cfg = parse_config("# comment\ntheme=dark\nA4=450\na4\n\n=440\n");
    assert!(cfg.a4.is_empty());
    assert!(cfg.sustain.is_empty());
    assert_eq!(cfg.solfege, None);
}

#[test]
fn the_value_runs_from_the_first_equals() {
    let cfg = parse_config("a4==440=\n");
    assert_eq!(cfg.a4, vec!["=440=".to_string()]);
}

#[test]
fn repeated_keys_keep_every_value_in_order() {
    let cfg = parse_config("a4=440\na4=oops\nsustain=1\na4=443\n");
    assert_eq!(cfg.a4, vec!["440".to_string(), "oops".to_string(), "443".to_string()]);
    assert_eq!(cfg.sustain, vec!["1".to_string()]);
}

#[test]
fn the_last_solfege_line_wins_and_only_true_is_true() {
    assert_eq!(parse_config("solfege=true\nsolfege=false\n").solfege, Some(false));
    assert_eq!(parse_config("solfege=false\nsolfege=true").solfege, Some(true));
    assert_eq!(parse_config("solfege=True\n").solfege, Some(false));
    assert_eq!(parse_config("solfege=yes\n").solfege, Some(false));
    assert_eq!(parse_config("solfege=\n").solfege, Some(false));
}

#[test]
fn renders_one_line_per_setting() {
    assert_eq!(render_config("440", "1.2", false), "a4=440\nsustain=1.2\nsolfege=false\n");
    assert_eq!(render_config("415.5", "2", true), "a4=415.5\nsustain=2\nsolfege=true\n");
}

#[test]
fn what_is_written_reads_back() {
    for (a4, sustain, solfege) in [("440", "1.2", false), ("466", "0.5", true), ("", "x=y", true)] {
        let cfg = parse_config(&render_config(a4, sustain, solfege));
        assert_eq!(cfg.a4, vec![a4.to_string()]);
        assert_eq!(cfg.sustain, vec![sustain.to_string()]);
        assert_eq!(cfg.solfege, Some(solfege));
    }
}

#[test]
fn a_line_appended_is_read_after_the_rest() {
    let base = render_config("440", "1.2", true);
    let cfg = parse_config(&(base + "solfege=false\na4=432\n"));
    assert_eq!(cfg.solfege, Some(false));
    assert_eq!(cfg.a4, vec!["440".to_string(), "432".to_string()]);
}
