//! The settings file: widget position, poll interval and whether the tray
//! icon is hidden, stored as `key=value` lines.

use vstd::prelude::*;

use crate::text::{
    all_digits, chars_of, dec_int, dec_nat, eq_at, fmt_i32, fmt_u64, is_digit, is_ws,
    lemma_dec_nat, lemma_parse_dec_i32, lemma_parse_dec_u64, lemma_trim_untouched, parse_i32_at,
    parse_i32_spec, parse_u64_at, parse_u64_spec, trim, trim_bounds,
};

verus! {

/// Widget position on screen; a negative coordinate asks for the automatic
/// placement.
#[derive(Debug, Clone, Copy, PartialEq, Eq, Structural)]
pub struct Position {
    pub x: i32,
    pub y: i32,
}

impl Default for Position {
    fn default() -> (r: Self)
        ensures
            r == (Position { x: -1i32, y: -1i32 }),
    {
        Position { x: -1, y: -1 }
    }
}

/// Application configuration.
#[derive(Debug, Clone, Copy, PartialEq, Eq, Structural)]
pub struct Config {
    pub position: Position,
    pub poll_interval_secs: u64,
    pub tray_hidden: bool,
}

/// The settings used when the file is missing or says nothing.
pub open spec fn default_config() -> Config {
    Config { position: Position { x: -1i32, y: -1i32 }, poll_interval_secs: 2, tray_hidden: false }
}

impl Default for Config {
    fn default() -> (r: Self)
        ensures
            r == default_config(),
    {
        Config { position: Position::default(), poll_interval_secs: 2, tray_hidden: false }
    }
}

/// The lines of a text: the pieces between `'\n'` characters, the last one
/// possibly empty.
pub open spec fn split_lines(s: Seq<char>) -> Seq<Seq<char>>
    decreases s.len(),
{
    if s.len() == 0 {
        seq![Seq::empty()]
    } else {
        let init = split_lines(s.drop_last());
        if s.last() == '\n' {
            init.push(Seq::empty())
        } else {
            init.update(init.len() - 1, init.last().push(s.last()))
        }
    }
}

/// One `key=value` setting, with key and value already trimmed.  An unknown
/// key, or a number that does not parse, leaves the configuration as it is.
pub open spec fn apply_setting(cfg: Config, key: Seq<char>, value: Seq<char>) -> Config {
    if key == "position_x"@ {
        match parse_i32_spec(value) {
            Some(x) => Config { position: Position { x, ..cfg.position }, ..cfg },
            None => cfg,
        }
    } else if key == "position_y"@ {
        match parse_i32_spec(value) {
            Some(y) => Config { position: Position { y, ..cfg.position }, ..cfg },
            None => cfg,
        }
    } else if key == "poll_interval"@ {
        match parse_u64_spec(value) {
            Some(p) => Config { poll_interval_secs: p, ..cfg },
            None => cfg,
        }
    } else if key == "tray_hidden"@ {
        Config { tray_hidden: value == "true"@ || value == "1"@, ..cfg }
    } else {
        cfg
    }
}

/// `k` is the position of the first `'='` in `t`.
pub open spec fn is_first_eq(t: Seq<char>, k: int) -> bool {
    &&& 0 <= k < t.len()
    &&& t[k] == '='
    &&& forall|j: int| 0 <= j < k ==> t[j] != '='
}

/// One line of the file.  Blank lines, lines starting with `#` or `;` and
/// lines without `=` change nothing; otherwise the text before the first
/// `=` is the key and the rest the value, both trimmed.
#[verifier::opaque]
pub open spec fn apply_line(cfg: Config, line: Seq<char>) -> Config {
    let t = trim(line);
    if t.len() == 0 || t[0] == '#' || t[0] == ';' {
        cfg
    } else if exists|k: int| is_first_eq(t, k) {
        let k = choose|k: int| is_first_eq(t, k);
        apply_setting(cfg, trim(t.subrange(0, k)), trim(t.subrange(k + 1, t.len() as int)))
    } else {
        cfg
    }
}

/// The lines applied in order, later lines overriding earlier ones.
pub open spec fn apply_lines(cfg: Config, lines: Seq<Seq<char>>) -> Config
    decreases lines.len(),
{
    if lines.len() == 0 {
        cfg
    } else {
        apply_line(apply_lines(cfg, lines.drop_last()), lines.last())
    }
}

/// The configuration that a file with this content holds.
pub open spec fn parse_config(content: Seq<char>) -> Config {
    apply_lines(default_config(), split_lines(content))
}

/// The configuration loaded from a file that could not be read (`None`)
/// or that holds the given content.
pub open spec fn load_config(content: Option<Seq<char>>) -> Config {
    match content {
        None => default_config(),
        Some(c) => parse_config(c),
    }
}

pub open spec fn bool_text(b: bool) -> Seq<char> {
    if b {
        "true"@
    } else {
        "false"@
    }
}

/// The file content that saving `c` writes.
pub open spec fn config_text(c: Config) -> Seq<char> {
    "# DeskVolt Configuration"@ + "\n"@ + "position_x="@ + dec_int(c.position.x as int) + "\n"@
        + "position_y="@ + dec_int(c.position.y as int) + "\n"@ + "poll_interval="@ + dec_nat(
        c.poll_interval_secs as nat,
    ) + "\n"@ + "tray_hidden="@ + bool_text(c.tray_hidden) + "\n"@
}

fn apply_setting_at(cfg: Config, s: &Vec<char>, klo: usize, khi: usize, vlo: usize, vhi: usize) -> (r:
    Config)
    requires
        klo <= khi <= s@.len(),
        vlo <= vhi <= s@.len(),
    ensures
        r == apply_setting(
            cfg,
            s@.subrange(klo as int, khi as int),
            s@.subrange(vlo as int, vhi as int),
        ),
{
    let mut cfg = cfg;
    if eq_at(s, klo, khi, "position_x") {
        if let Some(x) = parse_i32_at(s, vlo, vhi) {
            cfg.position.x = x;
        }
    } else if eq_at(s, klo, khi, "position_y") {
        if let Some(y) = parse_i32_at(s, vlo, vhi) {
            cfg.position.y = y;
        }
    } else if eq_at(s, klo, khi, "poll_interval") {
        if let Some(p) = parse_u64_at(s, vlo, vhi) {
            cfg.poll_interval_secs = p;
        }
    } else if eq_at(s, klo, khi, "tray_hidden") {
        let t = eq_at(s, vlo, vhi, "true");
        let one = eq_at(s, vlo, vhi, "1");
        cfg.tray_hidden = t || one;
    }
    cfg
}

fn apply_line_at(cfg: Config, s: &Vec<char>, lo: usize, hi: usize) -> (r: Config)
    requires
        lo <= hi <= s@.len(),
    ensures
        r == apply_line(cfg, s@.subrange(lo as int, hi as int)),
{
    reveal(apply_line);
    let ghost line = s@.subrange(lo as int, hi as int);
    let (a, b) = trim_bounds(s, lo, hi);
    let ghost t = s@.subrange(a as int, b as int);
    assert(t == trim(line));
    if a == b {
        return cfg;
    }
    assert(t[0] == s@[a as int]);
    if s[a] == '#' || s[a] == ';' {
        return cfg;
    }
    let mut k = a;
    while k < b && s[k] != '='
        invariant
            a <= k <= b <= s@.len(),
            t == s@.subrange(a as int, b as int),
            forall|j: int| 0 <= j < k - a ==> t[j] != '=',
        decreases b - k,
    {
        assert(t[k - a] == s@[k as int]);
        k = k + 1;
    }
    if k == b {
        assert(!exists|kk: int| is_first_eq(t, kk));
        return cfg;
    }
    assert(t[k - a] == s@[k as int]);
    assert(is_first_eq(t, k - a));
    let ghost kk = choose|kk: int| is_first_eq(t, kk);
    assert(kk == k - a) by {
        if kk < k - a {
            assert(t[kk] != '=');
        }
        if kk > k - a {
            assert(t[k - a] != '=');
        }
    }
    let (ka, kb) = trim_bounds(s, a, k);
    let (va, vb) = trim_bounds(s, k + 1, b);
    assert(t.subrange(0, k - a) =~= s@.subrange(a as int, k as int));
    assert(t.subrange(k - a + 1, t.len() as int) =~= s@.subrange(k + 1, b as int));
    apply_setting_at(cfg, s, ka, kb, va, vb)
}

proof fn lemma_split_no_newline(s: Seq<char>)
    requires
        forall|i: int| 0 <= i < s.len() ==> s[i] != '\n',
    ensures
        split_lines(s) == seq![s],
    decreases s.len(),
{
    if s.len() > 0 {
        lemma_split_no_newline(s.drop_last());
        assert(s.drop_last().push(s.last()) =~= s);
        assert(seq![s.drop_last()].update(0, s) =~= seq![s]);
    } else {
        assert(s =~= Seq::<char>::empty());
    }
}

proof fn lemma_split_concat(a: Seq<char>, b: Seq<char>)
    ensures
        split_lines(a + seq!['\n'] + b) == split_lines(a) + split_lines(b),
    decreases b.len(),
{
    lemma_split_lines_nonempty(a);
    lemma_split_lines_nonempty(b);
    let s = a + seq!['\n'] + b;
    if b.len() == 0 {
        assert(s.drop_last() =~= a);
        assert(b =~= Seq::<char>::empty());
        assert(split_lines(a).push(Seq::empty()) =~= split_lines(a) + seq![Seq::<char>::empty()]);
    } else {
        let b0 = b.drop_last();
        lemma_split_concat(a, b0);
        lemma_split_lines_nonempty(b0);
        assert(s.drop_last() =~= a + seq!['\n'] + b0);
        assert(s.last() == b.last());
        let l = split_lines(a) + split_lines(b0);
        if b.last() == '\n' {
            assert(l.push(Seq::empty()) =~= split_lines(a) + split_lines(b0).push(Seq::empty()));
        } else {
            let m = split_lines(b0);
            assert(l.last() == m.last());
            assert(l.update(l.len() - 1, l.last().push(b.last())) =~= split_lines(a) + m.update(
                m.len() - 1,
                m.last().push(b.last()),
            ));
        }
    }
}

/// A line `key=value` whose key holds no `=` and whose key and value have
/// no whitespace at their ends applies exactly that setting.
proof fn lemma_setting_line(cfg: Config, key: Seq<char>, value: Seq<char>)
    requires
        key.len() > 0,
        !is_ws(key[0]),
        !is_ws(key.last()),
        key[0] != '#',
        key[0] != ';',
        forall|j: int| 0 <= j < key.len() ==> key[j] != '=',
        value.len() > 0 ==> !is_ws(value[0]) && !is_ws(value.last()),
    ensures
        apply_line(cfg, key + seq!['='] + value) == apply_setting(cfg, key, value),
{
    reveal(apply_line);
    let line = key + seq!['='] + value;
    let k = key.len() as int;
    assert(line[0] == key[0]);
    assert(line.last() == if value.len() > 0 {
        value.last()
    } else {
        '='
    });
    lemma_trim_untouched(line);
    lemma_trim_untouched(key);
    lemma_trim_untouched(value);
    assert(line[k] == '=');
    assert forall|j: int| 0 <= j < k implies line[j] != '=' by {
        assert(line[j] == key[j]);
    }
    assert(is_first_eq(line, k));
    let kk = choose|kk: int| is_first_eq(line, kk);
    assert(kk == k) by {
        if kk < k {
            assert(line[kk] == key[kk]);
        }
        if kk > k {
            assert(line[k] != '=');
        }
    }
    assert(line.subrange(0, k) =~= key);
    assert(line.subrange(k + 1, line.len() as int) =~= value);
}

proof fn lemma_digits_not_ws(s: Seq<char>)
    requires
        all_digits(s),
        s.len() > 0,
    ensures
        !is_ws(s[0]),
        !is_ws(s.last()),
        s[0] != '\n',
{
    assert(is_digit(s[0]));
    assert(is_digit(s[s.len() - 1]));
}

proof fn lemma_no_newline_digits(s: Seq<char>)
    requires
        all_digits(s),
    ensures
        forall|i: int| 0 <= i < s.len() ==> s[i] != '\n',
{
    assert forall|i: int| 0 <= i < s.len() implies s[i] != '\n' by {
        assert(is_digit(s[i]));
    }
}

proof fn lemma_dec_int_shape(i: int)
    ensures
        dec_int(i).len() > 0,
        !is_ws(dec_int(i)[0]),
        !is_ws(dec_int(i).last()),
        forall|j: int| 0 <= j < dec_int(i).len() ==> dec_int(i)[j] != '\n',
{
    if i < 0 {
        lemma_dec_nat((-i) as nat);
        let d = dec_nat((-i) as nat);
        lemma_digits_not_ws(d);
        lemma_no_newline_digits(d);
        assert(dec_int(i).last() == d.last());
        assert forall|j: int| 0 <= j < dec_int(i).len() implies dec_int(i)[j] != '\n' by {
            if j > 0 {
                assert(dec_int(i)[j] == d[j - 1]);
            }
        }
    } else {
        lemma_dec_nat(i as nat);
        lemma_digits_not_ws(dec_nat(i as nat));
        lemma_no_newline_digits(dec_nat(i as nat));
    }
}

/// A key of the settings file: plain text with no whitespace at its ends,
/// no `=`, no line break, not starting a comment.
pub open spec fn plain_key(k: Seq<char>) -> bool {
    &&& k.len() > 0
    &&& !is_ws(k[0])
    &&& !is_ws(k.last())
    &&& k[0] != '#'
    &&& k[0] != ';'
    &&& forall|j: int| 0 <= j < k.len() ==> k[j] != '=' && k[j] != '\n'
}

proof fn lemma_literals()
    ensures
        "\n"@ == seq!['\n'],
        "position_x="@ == "position_x"@ + seq!['='],
        "position_y="@ == "position_y"@ + seq!['='],
        "poll_interval="@ == "poll_interval"@ + seq!['='],
        "tray_hidden="@ == "tray_hidden"@ + seq!['='],
        plain_key("position_x"@),
        plain_key("position_y"@),
        plain_key("poll_interval"@),
        plain_key("tray_hidden"@),
        "position_y"@ != "position_x"@,
        "poll_interval"@ != "position_x"@,
        "poll_interval"@ != "position_y"@,
        "tray_hidden"@ != "position_x"@,
        "tray_hidden"@ != "position_y"@,
        "tray_hidden"@ != "poll_interval"@,
        "false"@ != "true"@,
        "false"@ != "1"@,
        "true"@.len() > 0 && !is_ws("true"@[0]) && !is_ws("true"@.last()),
        "false"@.len() > 0 && !is_ws("false"@[0]) && !is_ws("false"@.last()),
        forall|j: int| 0 <= j < "true"@.len() ==> "true"@[j] != '\n',
        forall|j: int| 0 <= j < "false"@.len() ==> "false"@[j] != '\n',
        "# DeskVolt Configuration"@.len() > 0,
        "# DeskVolt Configuration"@[0] == '#',
        !is_ws("# DeskVolt Configuration"@.last()),
        forall|j: int|
            0 <= j < "# DeskVolt Configuration"@.len() ==> "# DeskVolt Configuration"@[j]
                != '\n',
{
    reveal_strlit("# DeskVolt Configuration");
    reveal_strlit("\n");
    reveal_strlit("position_x=");
    reveal_strlit("position_y=");
    reveal_strlit("poll_interval=");
    reveal_strlit("tray_hidden=");
    reveal_strlit("position_x");
    reveal_strlit("position_y");
    reveal_strlit("poll_interval");
    reveal_strlit("tray_hidden");
    reveal_strlit("true");
    reveal_strlit("false");
    reveal_strlit("1");
    assert("\n"@ =~= seq!['\n']);
    assert("position_x="@ =~= "position_x"@ + seq!['=']);
    assert("position_y="@ =~= "position_y"@ + seq!['=']);
    assert("poll_interval="@ =~= "poll_interval"@ + seq!['=']);
    assert("tray_hidden="@ =~= "tray_hidden"@ + seq!['=']);
    assert("position_y"@[9] != "position_x"@[9]);
    assert("false"@.len() == 5);
    assert("1"@.len() == 1);
}

/// The lines of a saved configuration file.
pub open spec fn config_lines(c: Config) -> Seq<Seq<char>> {
    seq![
        "# DeskVolt Configuration"@,
        "position_x"@ + seq!['='] + dec_int(c.position.x as int),
        "position_y"@ + seq!['='] + dec_int(c.position.y as int),
        "poll_interval"@ + seq!['='] + dec_nat(c.poll_interval_secs as nat),
        "tray_hidden"@ + seq!['='] + bool_text(c.tray_hidden),
        Seq::empty(),
    ]
}

proof fn lemma_setting_line_no_newline(k: Seq<char>, v: Seq<char>)
    requires
        plain_key(k),
        forall|j: int| 0 <= j < v.len() ==> v[j] != '\n',
    ensures
        split_lines(k + seq!['='] + v) == seq![k + seq!['='] + v],
{
    let l = k + seq!['='] + v;
    assert forall|j: int| 0 <= j < l.len() implies l[j] != '\n' by {
        if j < k.len() {
            assert(l[j] == k[j]);
        } else if j > k.len() {
            assert(l[j] == v[j - k.len() - 1]);
        }
    }
    lemma_split_no_newline(l);
}

proof fn lemma_config_text_lines(c: Config)
    ensures
        split_lines(config_text(c)) == config_lines(c),
{
    lemma_literals();
    let h = "# DeskVolt Configuration"@;
    let dx = dec_int(c.position.x as int);
    let dy = dec_int(c.position.y as int);
    let dp = dec_nat(c.poll_interval_secs as nat);
    let b = bool_text(c.tray_hidden);
    let eq = seq!['='];
    let nl = seq!['\n'];
    let l2 = "position_x"@ + eq + dx;
    let l3 = "position_y"@ + eq + dy;
    let l4 = "poll_interval"@ + eq + dp;
    let l5 = "tray_hidden"@ + eq + b;
    let e = Seq::<char>::empty();
    assert(config_text(c) =~= h + nl + (l2 + nl + (l3 + nl + (l4 + nl + (l5 + nl + e)))));
    lemma_dec_int_shape(c.position.x as int);
    lemma_dec_int_shape(c.position.y as int);
    lemma_dec_nat(c.poll_interval_secs as nat);
    lemma_no_newline_digits(dp);
    lemma_split_no_newline(h);
    lemma_setting_line_no_newline("position_x"@, dx);
    lemma_setting_line_no_newline("position_y"@, dy);
    lemma_setting_line_no_newline("poll_interval"@, dp);
    lemma_setting_line_no_newline("tray_hidden"@, b);
    lemma_split_no_newline(e);
    lemma_split_concat(l5, e);
    lemma_split_concat(l4, l5 + nl + e);
    lemma_split_concat(l3, l4 + nl + (l5 + nl + e));
    lemma_split_concat(l2, l3 + nl + (l4 + nl + (l5 + nl + e)));
    lemma_split_concat(h, l2 + nl + (l3 + nl + (l4 + nl + (l5 + nl + e))));
    assert(split_lines(config_text(c)) =~= config_lines(c));
}

#[verifier::spinoff_prover]
proof fn lemma_apply_config_lines(c: Config)
    ensures
        apply_lines(default_config(), config_lines(c)) == c,
{
    lemma_literals();
    let lines = config_lines(c);
    let d = default_config();
    let h = lines[0];
    lemma_trim_untouched(h);
    let c1 = apply_line(d, h);
    assert(c1 == d) by {
        reveal(apply_line);
    }
    lemma_dec_int_shape(c.position.x as int);
    lemma_setting_line(c1, "position_x"@, dec_int(c.position.x as int));
    lemma_parse_dec_i32(c.position.x);
    let c2 = apply_line(c1, lines[1]);
    assert(c2.position.x == c.position.x);
    lemma_dec_int_shape(c.position.y as int);
    lemma_setting_line(c2, "position_y"@, dec_int(c.position.y as int));
    lemma_parse_dec_i32(c.position.y);
    let c3 = apply_line(c2, lines[2]);
    assert(c3.position == c.position);
    let dp = dec_nat(c.poll_interval_secs as nat);
    lemma_dec_nat(c.poll_interval_secs as nat);
    lemma_digits_not_ws(dp);
    lemma_setting_line(c3, "poll_interval"@, dp);
    lemma_parse_dec_u64(c.poll_interval_secs);
    let c4 = apply_line(c3, lines[3]);
    lemma_setting_line(c4, "tray_hidden"@, bool_text(c.tray_hidden));
    let c5 = apply_line(c4, lines[4]);
    assert(c5 == c);
    assert(apply_line(c5, lines[5]) == c5) by {
        reveal(apply_line);
        assert(trim(lines[5]) =~= Seq::<char>::empty());
    }
    reveal_with_fuel(apply_lines, 7);
    assert(lines.drop_last() =~= seq![lines[0], lines[1], lines[2], lines[3], lines[4]]);
    assert(lines.drop_last().drop_last() =~= seq![lines[0], lines[1], lines[2], lines[3]]);
    assert(lines.drop_last().drop_last().drop_last() =~= seq![lines[0], lines[1], lines[2]]);
    assert(lines.drop_last().drop_last().drop_last().drop_last() =~= seq![lines[0], lines[1]]);
    assert(lines.drop_last().drop_last().drop_last().drop_last().drop_last() =~= seq![lines[0]]);
    assert(seq![lines[0]].drop_last() =~= Seq::<Seq<char>>::empty());
}

/// What saving a configuration writes, loading reads back unchanged.
pub proof fn lemma_saved_config_loads_back(c: Config)
    ensures
        parse_config(config_text(c)) == c,
{
    lemma_config_text_lines(c);
    lemma_apply_config_lines(c);
}

proof fn lemma_split_lines_nonempty(s: Seq<char>)
    ensures
        split_lines(s).len() >= 1,
    decreases s.len(),
{
    if s.len() > 0 {
        lemma_split_lines_nonempty(s.drop_last());
    }
}

impl Config {
    /// The configuration that a settings file with this content holds.
    pub fn parse(content: &str) -> (r: Config)
        ensures
            r == parse_config(content@),
    {
        let s = chars_of(content);
        let n = s.len();
        let mut cfg = Config::default();
        let mut start: usize = 0;
        let mut i: usize = 0;
        let ghost mut done: Seq<Seq<char>> = Seq::empty();
        assert(s@.subrange(0, 0) =~= Seq::<char>::empty());
        assert(done.push(s@.subrange(0, 0)) =~= split_lines(Seq::<char>::empty()));
        while i < n
            invariant
                n == s@.len(),
                s@ == content@,
                start <= i <= n,
                split_lines(s@.subrange(0, i as int)) == done.push(
                    s@.subrange(start as int, i as int),
                ),
                cfg == apply_lines(default_config(), done),
            decreases n - i,
        {
            let ghost before = s@.subrange(0, i as int);
            assert(s@.subrange(0, i + 1).drop_last() =~= before);
            assert(s@.subrange(0, i + 1).last() == s@[i as int]);
            if s[i] == '\n' {
                cfg = apply_line_at(cfg, &s, start, i);
                proof {
                    let old_done = done;
                    done = done.push(s@.subrange(start as int, i as int));
                    assert(done.drop_last() =~= old_done);
                    assert(s@.subrange(i + 1, i + 1) =~= Seq::<char>::empty());
                }
                start = i + 1;
            } else {
                proof {
                    assert(s@.subrange(start as int, i + 1) =~= s@.subrange(
                        start as int,
                        i as int,
                    ).push(s@[i as int]));
                    assert(done.push(s@.subrange(start as int, i as int)).update(
                        done.len() as int,
                        s@.subrange(start as int, i + 1),
                    ) =~= done.push(s@.subrange(start as int, i + 1)));
                }
            }
            i = i + 1;
        }
        assert(s@.subrange(0, n as int) =~= s@);
        let r = apply_line_at(cfg, &s, start, n);
        assert(done.push(s@.subrange(start as int, n as int)).drop_last() =~= done);
        r
    }

    /// The configuration of a settings file, or the defaults when the file
    /// could not be read.
    pub fn load(content: Option<&str>) -> (r: Config)
        ensures
            r == load_config(content_view(content)),
    {
        match content {
            None => Config::default(),
            Some(c) => Config::parse(c),
        }
    }

    /// The content of the settings file that holds this configuration.
    pub fn save(&self) -> (r: String)
        ensures
            r@ == config_text(*self),
    {
        let mut r = "# DeskVolt Configuration".to_owned();
        r.append("\n");
        r.append("position_x=");
        r.append(fmt_i32(self.position.x).as_str());
        r.append("\n");
        r.append("position_y=");
        r.append(fmt_i32(self.position.y).as_str());
        r.append("\n");
        r.append("poll_interval=");
        r.append(fmt_u64(self.poll_interval_secs).as_str());
        r.append("\n");
        r.append("tray_hidden=");
        if self.tray_hidden {
            r.append("true");
        } else {
            r.append("false");
        }
        r.append("\n");
        r
    }
}

/// `c` with the tray flag set to `hidden`.
pub open spec fn with_tray_hidden(c: Config, hidden: bool) -> Config {
    Config { tray_hidden: hidden, ..c }
}

/// The view of an optional file content.
pub open spec fn content_view(content: Option<&str>) -> Option<Seq<char>> {
    match content {
        None => None,
        Some(c) => Some(c@),
    }
}

/// Whether the tray icon is configured hidden, in the settings file with
/// this content (`None`: the file could not be read).
pub fn load_tray_hidden(content: Option<&str>) -> (r: bool)
    ensures
        r == load_config(content_view(content)).tray_hidden,
{
    Config::load(content).tray_hidden
}

/// The settings file content after recording whether the tray icon is
/// hidden: the loaded settings with only that flag changed.
pub fn save_tray_hidden(content: Option<&str>, hidden: bool) -> (r: String)
    ensures
        r@ == config_text(with_tray_hidden(load_config(content_view(content)), hidden)),
{
    let mut config = Config::load(content);
    config.tray_hidden = hidden;
    config.save()
}

/// Recording the tray flag and loading again gives back that flag, and
/// every other setting as it was.
pub proof fn lemma_tray_hidden_saved(content: Option<Seq<char>>, hidden: bool)
    ensures
        parse_config(config_text(with_tray_hidden(load_config(content), hidden)))
            == with_tray_hidden(load_config(content), hidden),
        parse_config(
            config_text(with_tray_hidden(load_config(content), hidden)),
        ).tray_hidden == hidden,
        parse_config(
            config_text(with_tray_hidden(load_config(content), hidden)),
        ).position == load_config(content).position,
        parse_config(
            config_text(with_tray_hidden(load_config(content), hidden)),
        ).poll_interval_secs == load_config(content).poll_interval_secs,
{
    lemma_saved_config_loads_back(with_tray_hidden(load_config(content), hidden));
}

/// A missing file and an empty file both give the defaults.
pub proof fn lemma_no_settings_defaults()
    ensures
        load_config(None) == default_config(),
        parse_config(Seq::empty()) == default_config(),
{
    assert(trim(Seq::<char>::empty()) =~= Seq::<char>::empty());
    reveal(apply_line);
    reveal_with_fuel(apply_lines, 2);
    assert(seq![Seq::<char>::empty()].drop_last() =~= Seq::<Seq<char>>::empty());
}

} // verus!
