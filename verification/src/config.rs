//! The settings file: one `key=value` pair per line.
//!
//! A line is split at its first `=`; key and value are trimmed of Unicode white space. The keys
//! `a4`, `sustain` and `solfege` are read, anything else is ignored. Several lines may carry the
//! same key: the reference pitch and the sustain keep every value in file order, so that the
//! caller can take the last one it can read as a number, and the solfège switch is set by the
//! last line that names it, on exactly when that line's value is `true`.

use vstd::prelude::*;

verus! {

broadcast use vstd::string::group_string_axioms;

/// Unicode's `White_Space` property, the set that `char::is_whitespace` and `str::trim` use.
pub open spec fn is_white_space(c: char) -> bool {
    let n = c as u32;
    ||| 0x09 <= n <= 0x0D
    ||| n == 0x20
    ||| n == 0x85
    ||| n == 0xA0
    ||| n == 0x1680
    ||| 0x2000 <= n <= 0x200A
    ||| n == 0x2028
    ||| n == 0x2029
    ||| n == 0x202F
    ||| n == 0x205F
    ||| n == 0x3000
}

/// `s` without its leading white space.
pub open spec fn trim_start(s: Seq<char>) -> Seq<char>
    decreases s.len(),
{
    if s.len() > 0 && is_white_space(s[0]) {
        trim_start(s.drop_first())
    } else {
        s
    }
}

/// `s` without its trailing white space.
pub open spec fn trim_end(s: Seq<char>) -> Seq<char>
    decreases s.len(),
{
    if s.len() > 0 && is_white_space(s.last()) {
        trim_end(s.drop_last())
    } else {
        s
    }
}

/// `s` without leading and trailing white space.
pub open spec fn trim(s: Seq<char>) -> Seq<char> {
    trim_end(trim_start(s))
}

/// The position of the first `=` in `s`, if there is one.
pub open spec fn first_eq(s: Seq<char>) -> Option<int>
    decreases s.len(),
{
    if s.len() == 0 {
        None
    } else if s[0] == '=' {
        Some(0)
    } else {
        match first_eq(s.drop_first()) {
            Some(k) => Some(k + 1),
            None => None,
        }
    }
}

/// The lines of a text, split at every `\n` (a text without one is a single line).
pub open spec fn lines(s: Seq<char>) -> Seq<Seq<char>>
    decreases s.len(),
{
    if s.len() == 0 {
        seq![Seq::empty()]
    } else {
        let before = lines(s.drop_last());
        if s.last() == '\n' {
            before.push(Seq::empty())
        } else {
            before.update(before.len() - 1, before.last().push(s.last()))
        }
    }
}

pub open spec fn a4_key() -> Seq<char> {
    seq!['a', '4']
}

pub open spec fn sustain_key() -> Seq<char> {
    seq!['s', 'u', 's', 't', 'a', 'i', 'n']
}

pub open spec fn solfege_key() -> Seq<char> {
    seq!['s', 'o', 'l', 'f', 'e', 'g', 'e']
}

pub open spec fn true_word() -> Seq<char> {
    seq!['t', 'r', 'u', 'e']
}

pub open spec fn false_word() -> Seq<char> {
    seq!['f', 'a', 'l', 's', 'e']
}

/// What a settings file says, as texts: every reference-pitch value and every sustain value in
/// file order, and the solfège switch of the last line that sets it.
pub struct ConfigFileView {
    pub a4: Seq<Seq<char>>,
    pub sustain: Seq<Seq<char>>,
    pub solfege: Option<bool>,
}

pub open spec fn empty_config() -> ConfigFileView {
    ConfigFileView { a4: Seq::empty(), sustain: Seq::empty(), solfege: None }
}

/// What one line adds to what the lines before it said.
pub open spec fn read_line(acc: ConfigFileView, line: Seq<char>) -> ConfigFileView {
    match first_eq(line) {
        None => acc,
        Some(k) => {
            let key = trim(line.take(k));
            let value = trim(line.skip(k + 1));
            if key == a4_key() {
                ConfigFileView { a4: acc.a4.push(value), sustain: acc.sustain, solfege: acc.solfege }
            } else if key == sustain_key() {
                ConfigFileView { a4: acc.a4, sustain: acc.sustain.push(value), solfege: acc.solfege }
            } else if key == solfege_key() {
                ConfigFileView { a4: acc.a4, sustain: acc.sustain, solfege: Some(value == true_word()) }
            } else {
                acc
            }
        },
    }
}

/// What a sequence of lines says, read from the first to the last.
pub open spec fn read_lines(ls: Seq<Seq<char>>) -> ConfigFileView
    decreases ls.len(),
{
    if ls.len() == 0 {
        empty_config()
    } else {
        read_line(read_lines(ls.drop_last()), ls.last())
    }
}

/// What a settings file says.
pub open spec fn config_spec(text: Seq<char>) -> ConfigFileView {
    read_lines(lines(text))
}

/// The settings file as read: the raw texts of the reference-pitch and sustain lines, in file
/// order, and the solfège switch if a line sets it.
pub struct ConfigFile {
    pub a4: Vec<String>,
    pub sustain: Vec<String>,
    pub solfege: Option<bool>,
}

pub open spec fn texts(v: Seq<String>) -> Seq<Seq<char>> {
    v.map_values(|s: String| s@)
}

impl View for ConfigFile {
    type V = ConfigFileView;

    open spec fn view(&self) -> ConfigFileView {
        ConfigFileView { a4: texts(self.a4@), sustain: texts(self.sustain@), solfege: self.solfege }
    }
}

/// The characters of a text, one by one.
fn chars_of(text: &str) -> (v: Vec<char>)
    ensures
        v@ == text@,
{
    let mut v: Vec<char> = Vec::new();
    for c in it: text.chars()
        invariant
            v@ == it.seq().take(it.index()),
    {
        v.push(c);
    }
    v
}


/// Whether `c` is Unicode white space.
fn is_space(c: char) -> (b: bool)
    ensures
        b == is_white_space(c),
{
    let n = c as u32;
    (0x09 <= n && n <= 0x0D) || n == 0x20 || n == 0x85 || n == 0xA0 || n == 0x1680 || (0x2000
        <= n && n <= 0x200A) || n == 0x2028 || n == 0x2029 || n == 0x202F || n == 0x205F || n
        == 0x3000
}

proof fn lemma_trim_start(s: Seq<char>, k: int)
    requires
        0 <= k <= s.len(),
        forall|i: int| 0 <= i < k ==> is_white_space(#[trigger] s[i]),
        k == s.len() || !is_white_space(s[k]),
    ensures
        trim_start(s) == s.skip(k),
    decreases k,
{
    if k == 0 {
        assert(s.skip(0) =~= s);
    } else {
        assert(is_white_space(s[0]));
        let t = s.drop_first();
        assert forall|i: int| 0 <= i < k - 1 implies is_white_space(#[trigger] t[i]) by {
            assert(t[i] == s[i + 1]);
        }
        lemma_trim_start(t, k - 1);
        assert(t.skip(k - 1) =~= s.skip(k));
    }
}

proof fn lemma_trim_end(s: Seq<char>, k: int)
    requires
        0 <= k <= s.len(),
        forall|i: int| k <= i < s.len() ==> is_white_space(#[trigger] s[i]),
        k == 0 || !is_white_space(s[k - 1]),
    ensures
        trim_end(s) == s.take(k),
    decreases s.len() - k,
{
    if k == s.len() {
        assert(s.take(k) =~= s);
    } else {
        assert(is_white_space(s[s.len() - 1]));
        let t = s.drop_last();
        assert forall|i: int| k <= i < t.len() implies is_white_space(#[trigger] t[i]) by {
            assert(t[i] == s[i]);
        }
        lemma_trim_end(t, k);
        assert(t.take(k) =~= s.take(k));
    }
}

proof fn lemma_first_eq_found(s: Seq<char>, k: int)
    requires
        0 <= k < s.len(),
        s[k] == '=',
        forall|i: int| 0 <= i < k ==> #[trigger] s[i] != '=',
    ensures
        first_eq(s) == Some(k),
    decreases k,
{
    if k > 0 {
        let t = s.drop_first();
        assert forall|i: int| 0 <= i < k - 1 implies #[trigger] t[i] != '=' by {
            assert(t[i] == s[i + 1]);
        }
        lemma_first_eq_found(t, k - 1);
    }
}

proof fn lemma_first_eq_absent(s: Seq<char>)
    requires
        forall|i: int| 0 <= i < s.len() ==> #[trigger] s[i] != '=',
    ensures
        first_eq(s) is None,
    decreases s.len(),
{
    if s.len() > 0 {
        let t = s.drop_first();
        assert forall|i: int| 0 <= i < t.len() implies #[trigger] t[i] != '=' by {
            assert(t[i] == s[i + 1]);
        }
        lemma_first_eq_absent(t);
    }
}

/// The bounds of `chars[a..b]` without its leading and trailing white space.
fn trim_bounds(chars: &Vec<char>, a: usize, b: usize) -> (r: (usize, usize))
    requires
        a <= b <= chars.len(),
    ensures
        a <= r.0 <= r.1 <= b,
        trim(chars@.subrange(a as int, b as int)) == chars@.subrange(r.0 as int, r.1 as int),
{
    let ghost s = chars@.subrange(a as int, b as int);
    let mut lo = a;
    while lo < b && is_space(chars[lo])
        invariant
            a <= lo <= b <= chars.len(),
            s == chars@.subrange(a as int, b as int),
            forall|i: int| 0 <= i < lo - a ==> is_white_space(#[trigger] s[i]),
        decreases b - lo,
    {
        lo = lo + 1;
    }
    proof {
        lemma_trim_start(s, lo - a);
        assert(s.skip(lo - a) =~= chars@.subrange(lo as int, b as int));
    }
    let ghost t = chars@.subrange(lo as int, b as int);
    let mut hi = b;
    while hi > lo && is_space(chars[hi - 1])
        invariant
            a <= lo <= hi <= b <= chars.len(),
            t == chars@.subrange(lo as int, b as int),
            forall|i: int| hi - lo <= i < t.len() ==> is_white_space(#[trigger] t[i]),
        decreases hi - lo,
    {
        hi = hi - 1;
    }
    proof {
        lemma_trim_end(t, hi - lo);
        assert(t.take(hi - lo) =~= chars@.subrange(lo as int, hi as int));
    }
    (lo, hi)
}

/// Whether `chars[a..b]` spells `word`.
fn spells(chars: &Vec<char>, a: usize, b: usize, word: &[char]) -> (r: bool)
    requires
        a <= b <= chars.len(),
    ensures
        r == (chars@.subrange(a as int, b as int) == word@),
{
    if b - a != word.len() {
        return false;
    }
    let mut i: usize = 0;
    while i < word.len()
        invariant
            b - a == word.len(),
            a <= b <= chars.len(),
            i <= word.len(),
            forall|j: int| 0 <= j < i ==> chars@[a + j] == word@[j],
        decreases word.len() - i,
    {
        if chars[a + i] != word[i] {
            assert(chars@.subrange(a as int, b as int)[i as int] != word@[i as int]);
            return false;
        }
        i = i + 1;
    }
    assert(chars@.subrange(a as int, b as int) =~= word@);
    true
}

proof fn lemma_push_texts(v: Seq<String>, s: String)
    ensures
        texts(v.push(s)) == texts(v).push(s@),
{
    assert(texts(v.push(s)) =~= texts(v).push(s@));
}

/// Reads the line `chars[a..b]` into `cfg`.
fn read_line_into(cfg: &mut ConfigFile, text: &str, chars: &Vec<char>, a: usize, b: usize)
    requires
        chars@ == text@,
        a <= b <= chars.len(),
    ensures
        final(cfg)@ == read_line(old(cfg)@, chars@.subrange(a as int, b as int)),
{
    let ghost line = chars@.subrange(a as int, b as int);
    let mut e = a;
    while e < b && chars[e] != '='
        invariant
            a <= e <= b <= chars.len(),
            line == chars@.subrange(a as int, b as int),
            forall|i: int| 0 <= i < e - a ==> #[trigger] line[i] != '=',
        decreases b - e,
    {
        e = e + 1;
    }
    if e == b {
        proof {
            lemma_first_eq_absent(line);
        }
        return;
    }
    proof {
        lemma_first_eq_found(line, e - a);
        assert(line.take(e - a) =~= chars@.subrange(a as int, e as int));
        assert(line.skip(e - a + 1) =~= chars@.subrange(e + 1, b as int));
    }
    let (ks, ke) = trim_bounds(chars, a, e);
    let (vs, ve) = trim_bounds(chars, e + 1, b);
    if spells(chars, ks, ke, &['a', '4']) {
        let value = text.substring_char(vs, ve).to_owned();
        proof {
            lemma_push_texts(cfg.a4@, value);
        }
        cfg.a4.push(value);
    } else if spells(chars, ks, ke, &['s', 'u', 's', 't', 'a', 'i', 'n']) {
        let value = text.substring_char(vs, ve).to_owned();
        proof {
            lemma_push_texts(cfg.sustain@, value);
        }
        cfg.sustain.push(value);
    } else if spells(chars, ks, ke, &['s', 'o', 'l', 'f', 'e', 'g', 'e']) {
        cfg.solfege = Some(spells(chars, vs, ve, &['t', 'r', 'u', 'e']));
    }
}


proof fn lemma_lines_nonempty(s: Seq<char>)
    ensures
        lines(s).len() >= 1,
    decreases s.len(),
{
    if s.len() > 0 {
        lemma_lines_nonempty(s.drop_last());
    }
}

/// Reads a settings file.
pub fn parse_config(text: &str) -> (cfg: ConfigFile)
    ensures
        cfg@ == config_spec(text@),
{
    let chars = chars_of(text);
    let n = chars.len();
    let mut cfg = ConfigFile { a4: Vec::new(), sustain: Vec::new(), solfege: None };
    proof {
        assert(text@.take(0) =~= Seq::<char>::empty());
        assert(texts(cfg.a4@) =~= Seq::empty());
        assert(texts(cfg.sustain@) =~= Seq::empty());
        assert(lines(text@.take(0)).drop_last() =~= Seq::<Seq<char>>::empty());
        assert(chars@.subrange(0, 0) =~= Seq::<char>::empty());
    }
    let mut start: usize = 0;
    let mut i: usize = 0;
    while i < n
        invariant
            chars@ == text@,
            n == chars.len(),
            start <= i <= n,
            lines(text@.take(i as int)).len() >= 1,
            lines(text@.take(i as int)).last() == chars@.subrange(start as int, i as int),
            cfg@ == read_lines(lines(text@.take(i as int)).drop_last()),
        decreases n - i,
    {
        let ghost before = lines(text@.take(i as int));
        let ghost next = text@.take(i + 1);
        proof {
            assert(next.drop_last() =~= text@.take(i as int));
            assert(next.last() == chars@[i as int]);
            lemma_lines_nonempty(next);
        }
        if chars[i] == '\n' {
            read_line_into(&mut cfg, text, &chars, start, i);
            proof {
                assert(lines(next) == before.push(Seq::empty()));
                assert(lines(next).drop_last() =~= before);
                assert(chars@.subrange(i + 1, i + 1) =~= Seq::<char>::empty());
            }
            start = i + 1;
        } else {
            proof {
                assert(lines(next) == before.update(before.len() - 1, before.last().push(chars@[i as int])));
                assert(lines(next).drop_last() =~= before.drop_last());
                assert(lines(next).last() =~= chars@.subrange(start as int, i + 1));
            }
        }
        i = i + 1;
    }
    proof {
        assert(text@.take(n as int) =~= text@);
        lemma_lines_nonempty(text@);
    }
    read_line_into(&mut cfg, text, &chars, start, n);
    cfg
}


/// The text of one `key=value` line, newline included.
pub open spec fn line_text(key: Seq<char>, value: Seq<char>) -> Seq<char> {
    key + seq!['='] + value + seq!['\n']
}

/// The settings file written for the given values: the reference pitch, the sustain, and the
/// solfège switch as `true` or `false`, one line each, in that order.
pub open spec fn render_spec(a4: Seq<char>, sustain: Seq<char>, solfege: bool) -> Seq<char> {
    line_text(a4_key(), a4) + line_text(sustain_key(), sustain) + line_text(
        solfege_key(),
        if solfege { true_word() } else { false_word() },
    )
}

/// A value that reads back as itself: on one line, with no white space at either end.
pub open spec fn is_plain_value(v: Seq<char>) -> bool {
    &&& forall|i: int| 0 <= i < v.len() ==> #[trigger] v[i] != '\n'
    &&& trim(v) == v
}

/// Writes the settings file for the given values (the numbers already as text).
pub fn render_config(a4: &str, sustain: &str, solfege: bool) -> (text: String)
    ensures
        text@ == render_spec(a4@, sustain@, solfege),
{
    proof {
        reveal_strlit("a4=");
        reveal_strlit("\n");
        reveal_strlit("sustain=");
        reveal_strlit("solfege=");
        reveal_strlit("true");
        reveal_strlit("false");
    }
    let mut text = "a4=".to_owned();
    text.append(a4);
    text.append("\n");
    text.append("sustain=");
    text.append(sustain);
    text.append("\n");
    text.append("solfege=");
    text.append(if solfege { "true" } else { "false" });
    text.append("\n");
    proof {
        assert(text@ =~= render_spec(a4@, sustain@, solfege));
    }
    text
}

proof fn lemma_lines_append_plain(s: Seq<char>, t: Seq<char>)
    requires
        forall|i: int| 0 <= i < t.len() ==> #[trigger] t[i] != '\n',
    ensures
        lines(s + t).len() == lines(s).len(),
        lines(s + t) == lines(s).update(lines(s).len() - 1, lines(s).last() + t),
    decreases t.len(),
{
    lemma_lines_nonempty(s);
    if t.len() == 0 {
        assert(s + t =~= s);
        assert(lines(s).last() + t =~= lines(s).last());
        assert(lines(s).update(lines(s).len() - 1, lines(s).last()) =~= lines(s));
    } else {
        let u = t.drop_last();
        assert forall|i: int| 0 <= i < u.len() implies #[trigger] u[i] != '\n' by {
            assert(u[i] == t[i]);
        }
        lemma_lines_append_plain(s, u);
        assert((s + t).drop_last() =~= s + u);
        assert((s + t).last() == t.last());
        assert(t.last() != '\n');
        assert((lines(s).last() + u).push(t.last()) =~= lines(s).last() + t);
        assert(lines(s + t) =~= lines(s).update(lines(s).len() - 1, lines(s).last() + t));
    }
}

/// Appending one line (without a newline inside) and its newline to a text that ends a line.
proof fn lemma_lines_append_line(s: Seq<char>, l: Seq<char>)
    requires
        lines(s).last() == Seq::<char>::empty(),
        forall|i: int| 0 <= i < l.len() ==> #[trigger] l[i] != '\n',
    ensures
        lines(s + l + seq!['\n']) == lines(s).update(lines(s).len() - 1, l).push(Seq::empty()),
{
    lemma_lines_nonempty(s);
    lemma_lines_append_plain(s, l);
    assert(Seq::<char>::empty() + l =~= l);
    let w = s + l + seq!['\n'];
    assert(w.drop_last() =~= s + l);
}

proof fn lemma_trim_word(w: Seq<char>)
    requires
        forall|i: int| 0 <= i < w.len() ==> !is_white_space(#[trigger] w[i]),
    ensures
        trim(w) == w,
{
    lemma_trim_start(w, 0);
    assert(w.skip(0) =~= w);
    lemma_trim_end(w, w.len() as int);
    assert(w.take(w.len() as int) =~= w);
}

proof fn lemma_read_key_line(key: Seq<char>, value: Seq<char>)
    requires
        forall|i: int| 0 <= i < key.len() ==> !is_white_space(#[trigger] key[i]) && key[i] != '=',
    ensures
        first_eq(key + seq!['='] + value) == Some(key.len() as int),
        (key + seq!['='] + value).take(key.len() as int) == key,
        (key + seq!['='] + value).skip(key.len() as int + 1) == value,
        trim(key) == key,
{
    let l = key + seq!['='] + value;
    assert forall|i: int| 0 <= i < key.len() implies #[trigger] l[i] != '=' by {
        assert(l[i] == key[i]);
    }
    lemma_first_eq_found(l, key.len() as int);
    assert(l.take(key.len() as int) =~= key);
    assert(l.skip(key.len() as int + 1) =~= value);
    lemma_trim_word(key);
}

/// A settings file reads back what was written into it: the reference pitch and the sustain
/// come back as the one value each that was written, and the solfège switch as it was set.
pub proof fn lemma_config_round_trip(a4: Seq<char>, sustain: Seq<char>, solfege: bool)
    requires
        is_plain_value(a4),
        is_plain_value(sustain),
    ensures
        config_spec(render_spec(a4, sustain, solfege)) == (ConfigFileView {
            a4: seq![a4],
            sustain: seq![sustain],
            solfege: Some(solfege),
        }),
{
    let word = if solfege { true_word() } else { false_word() };
    let l1 = a4_key() + seq!['='] + a4;
    let l2 = sustain_key() + seq!['='] + sustain;
    let l3 = solfege_key() + seq!['='] + word;
    assert forall|i: int| 0 <= i < l1.len() implies #[trigger] l1[i] != '\n' by {
        if i >= 3 {
            assert(l1[i] == a4[i - 3]);
        }
    }
    assert forall|i: int| 0 <= i < l2.len() implies #[trigger] l2[i] != '\n' by {
        if i >= 8 {
            assert(l2[i] == sustain[i - 8]);
        }
    }
    assert forall|i: int| 0 <= i < l3.len() implies #[trigger] l3[i] != '\n' by {
    }
    let e = Seq::<char>::empty();
    assert(lines(e) == seq![e]);
    lemma_lines_append_line(e, l1);
    assert(e + l1 + seq!['\n'] =~= line_text(a4_key(), a4));
    let t1 = line_text(a4_key(), a4);
    assert(lines(t1) =~= seq![l1, e]);
    lemma_lines_append_line(t1, l2);
    let t2 = t1 + line_text(sustain_key(), sustain);
    assert(t1 + l2 + seq!['\n'] =~= t2);
    assert(lines(t2) =~= seq![l1, l2, e]);
    lemma_lines_append_line(t2, l3);
    let t3 = render_spec(a4, sustain, solfege);
    assert(t2 + l3 + seq!['\n'] =~= t3);
    assert(lines(t3) =~= seq![l1, l2, l3, e]);

    lemma_read_key_line(a4_key(), a4);
    lemma_read_key_line(sustain_key(), sustain);
    lemma_read_key_line(solfege_key(), word);
    lemma_trim_word(word);
    let ls = seq![l1, l2, l3, e];
    assert(ls.drop_last() =~= seq![l1, l2, l3]);
    assert(seq![l1, l2, l3].drop_last() =~= seq![l1, l2]);
    assert(seq![l1, l2].drop_last() =~= seq![l1]);
    assert(seq![l1].drop_last() =~= Seq::<Seq<char>>::empty());
    let r1 = read_line(empty_config(), l1);
    assert(r1.a4 =~= seq![a4]);
    let r2 = read_line(r1, l2);
    assert(sustain_key() != a4_key());
    assert(r2.sustain =~= seq![sustain]);
    let r3 = read_line(r2, l3);
    assert(solfege_key() != a4_key());
    assert(solfege_key() != sustain_key());
    assert(true_word() != false_word());
    assert(read_line(r3, e) == r3);
    assert(read_lines(Seq::<Seq<char>>::empty()) == empty_config());
    assert(read_lines(seq![l1]) == r1);
    assert(read_lines(seq![l1, l2]) == r2);
    assert(read_lines(seq![l1, l2, l3]) == r3);
    assert(read_lines(ls) == r3);
    assert(r3.a4 =~= seq![a4]);
    assert(r3.sustain =~= seq![sustain]);
    assert(r3.solfege == Some(solfege));
}


/// Each line is read after the lines before it: appending a line (and its newline) to a text
/// that ends a line adds exactly what that one line says. So a later line for the same key is
/// read after an earlier one, and the solfège switch ends as the last such line sets it.
pub proof fn lemma_config_append_line(text: Seq<char>, line: Seq<char>)
    requires
        text.len() == 0 || text.last() == '\n',
        forall|i: int| 0 <= i < line.len() ==> #[trigger] line[i] != '\n',
    ensures
        config_spec(text + line + seq!['\n']) == read_line(config_spec(text), line),
{
    lemma_lines_nonempty(text);
    if text.len() > 0 {
        lemma_lines_nonempty(text.drop_last());
    }
    let ls = lines(text);
    assert(ls.last() == Seq::<char>::empty());
    lemma_lines_append_line(text, line);
    let grown = ls.update(ls.len() - 1, line);
    let all = grown.push(Seq::<char>::empty());
    assert(all.drop_last() =~= grown);
    assert(grown.drop_last() =~= ls.drop_last());
    assert(read_line(read_lines(grown), Seq::<char>::empty()) == read_lines(grown));
    assert(read_line(read_lines(ls.drop_last()), Seq::<char>::empty()) == read_lines(ls.drop_last()));
}

} // verus!
