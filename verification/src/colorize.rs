//! Colouring of the `--help-detail` reference: headings, examples, command
//! lines and option lines get ANSI SGR codes, line by line.

use vstd::prelude::*;
use crate::chars::chars_of;

verus! {

/// Bold cyan, used for headings.
pub open spec fn heading_on() -> Seq<char> {
    "\x1b[1;36m"@
}

/// Resets all SGR attributes.
pub open spec fn sgr_reset() -> Seq<char> {
    "\x1b[0m"@
}

/// Line start of an example line.
pub open spec fn example_lead() -> Seq<char> {
    "      Example:"@
}

/// What an example line's lead becomes (green `Example:`).
pub open spec fn example_tag() -> Seq<char> {
    "      \x1b[32mExample:\x1b[0m"@
}

/// Line start of a command line.
pub open spec fn command_lead() -> Seq<char> {
    "  cosmostrix"@
}

/// What a command line's lead becomes (bold blue program name).
pub open spec fn command_tag() -> Seq<char> {
    "  \x1b[1;34mcosmostrix\x1b[0m"@
}

/// Line start of a short option line.
pub open spec fn short_option_lead() -> Seq<char> {
    "  -"@
}

/// What a short option line's lead becomes (yellow from the dash on).
pub open spec fn short_option_tag() -> Seq<char> {
    "  \x1b[33m-"@
}

/// Line start of a long option line.
pub open spec fn long_option_lead() -> Seq<char> {
    "  --"@
}

/// What a long option line's lead becomes.
pub open spec fn long_option_tag() -> Seq<char> {
    "  \x1b[33m--"@
}

/// Whether `s` starts with `p`.
pub open spec fn has_prefix(s: Seq<char>, p: Seq<char>) -> bool {
    p.len() <= s.len() && forall|i: int| 0 <= i < p.len() ==> #[trigger] s[i] == p[i]
}

/// `char::to_ascii_uppercase`.
pub open spec fn ascii_upper(c: char) -> char {
    if 'a' <= c <= 'z' {
        ((c as u32) - 32) as char
    } else {
        c
    }
}

/// `str::to_ascii_uppercase`, character by character.
pub open spec fn to_ascii_upper(s: Seq<char>) -> Seq<char> {
    s.map_values(|c: char| ascii_upper(c))
}

/// A heading: not indented, ending in a colon, and without lower-case
/// ASCII letters (it equals its upper-case form).
pub open spec fn is_heading(line: Seq<char>) -> bool {
    &&& !(line.len() > 0 && line[0] == ' ')
    &&& line.len() > 0 && line.last() == ':'
    &&& line == to_ascii_upper(line)
}

/// How one line (without its newline) is coloured. The first rule that
/// applies wins; a line that no rule matches is kept as it is.
pub open spec fn format_line(line: Seq<char>) -> Seq<char> {
    if is_heading(line) {
        heading_on() + line + sgr_reset()
    } else if has_prefix(line, example_lead()) {
        example_tag() + line.skip(example_lead().len() as int)
    } else if has_prefix(line, command_lead()) {
        command_tag() + line.skip(command_lead().len() as int)
    } else if has_prefix(line, short_option_lead()) {
        short_option_tag() + line.skip(short_option_lead().len() as int) + sgr_reset()
    } else if has_prefix(line, long_option_lead()) {
        long_option_tag() + line.skip(long_option_lead().len() as int) + sgr_reset()
    } else {
        line
    }
}

/// Colouring of `rest`, when `line` is the part of the current line that
/// was read before it. Each line of the text (the pieces that
/// `split_inclusive('\n')` yields) is formatted and keeps its newline; a
/// last line without newline is formatted too, and an empty text gives
/// nothing.
pub open spec fn colorize_from(rest: Seq<char>, line: Seq<char>) -> Seq<char>
    decreases rest.len(),
{
    if rest.len() == 0 {
        if line.len() == 0 {
            Seq::empty()
        } else {
            format_line(line)
        }
    } else if rest[0] == '\n' {
        format_line(line) + seq!['\n'] + colorize_from(rest.drop_first(), Seq::empty())
    } else {
        colorize_from(rest.drop_first(), line.push(rest[0]))
    }
}

/// The coloured form of `text`.
pub open spec fn colorize_spec(text: Seq<char>) -> Seq<char> {
    colorize_from(text, Seq::empty())
}

/// Whether `s[lo..hi]` starts with `p`.
fn has_prefix_at(s: &Vec<char>, lo: usize, hi: usize, p: &str) -> (r: bool)
    requires
        lo <= hi <= s@.len(),
    ensures
        r == has_prefix(s@.subrange(lo as int, hi as int), p@),
{
    let ps = chars_of(p);
    if ps.len() > hi - lo {
        return false;
    }
    let mut i: usize = 0;
    while i < ps.len()
        invariant
            lo <= hi <= s@.len(),
            ps@ == p@,
            ps@.len() <= hi - lo,
            i <= ps@.len(),
            forall|j: int| 0 <= j < i ==> s@[lo + j] == ps@[j],
        decreases ps.len() - i,
    {
        if s[lo + i] != ps[i] {
            assert(s@.subrange(lo as int, hi as int)[i as int] != p@[i as int]);
            return false;
        }
        i = i + 1;
    }
    assert forall|j: int| 0 <= j < p@.len() implies #[trigger] s@.subrange(
        lo as int,
        hi as int,
    )[j] == p@[j] by {
        assert(s@[lo + j] == ps@[j]);
    }
    true
}

/// Whether `s[lo..hi]` is a heading.
fn is_heading_at(s: &Vec<char>, lo: usize, hi: usize) -> (r: bool)
    requires
        lo <= hi <= s@.len(),
    ensures
        r == is_heading(s@.subrange(lo as int, hi as int)),
{
    let ghost line = s@.subrange(lo as int, hi as int);
    if lo == hi {
        return false;
    }
    if s[lo] == ' ' {
        return false;
    }
    if s[hi - 1] != ':' {
        return false;
    }
    let mut i = lo;
    while i < hi
        invariant
            lo <= i <= hi <= s@.len(),
            line == s@.subrange(lo as int, hi as int),
            forall|j: int| lo <= j < i ==> !('a' <= #[trigger] s@[j] <= 'z'),
        decreases hi - i,
    {
        let c = s[i];
        if 'a' <= c && c <= 'z' {
            assert(to_ascii_upper(line)[i - lo] != line[i - lo]);
            return false;
        }
        i = i + 1;
    }
    assert(line =~= to_ascii_upper(line)) by {
        assert forall|j: int| 0 <= j < line.len() implies to_ascii_upper(line)[j] == line[j] by {
            assert(line[j] == s@[lo + j]);
        }
    }
    true
}

/// Appends `format_line(text[lo..hi])` to `out`.
fn push_formatted_line(out: &mut String, text: &str, cs: &Vec<char>, lo: usize, hi: usize)
    requires
        cs@ == text@,
        lo <= hi <= cs@.len(),
    ensures
        final(out)@ == old(out)@ + format_line(cs@.subrange(lo as int, hi as int)),
{
    let ghost line = cs@.subrange(lo as int, hi as int);
    if is_heading_at(cs, lo, hi) {
        out.append("\x1b[1;36m");
        out.append(text.substring_char(lo, hi));
        out.append("\x1b[0m");
    } else if has_prefix_at(cs, lo, hi, "      Example:") {
        let n = "      Example:".unicode_len();
        out.append("      \x1b[32mExample:\x1b[0m");
        out.append(text.substring_char(lo + n, hi));
        assert(cs@.subrange(lo + n, hi as int) =~= line.skip(n as int));
    } else if has_prefix_at(cs, lo, hi, "  cosmostrix") {
        let n = "  cosmostrix".unicode_len();
        out.append("  \x1b[1;34mcosmostrix\x1b[0m");
        out.append(text.substring_char(lo + n, hi));
        assert(cs@.subrange(lo + n, hi as int) =~= line.skip(n as int));
    } else if has_prefix_at(cs, lo, hi, "  -") {
        let n = "  -".unicode_len();
        out.append("  \x1b[33m-");
        out.append(text.substring_char(lo + n, hi));
        out.append("\x1b[0m");
        assert(cs@.subrange(lo + n, hi as int) =~= line.skip(n as int));
    } else if has_prefix_at(cs, lo, hi, "  --") {
        let n = "  --".unicode_len();
        out.append("  \x1b[33m--");
        out.append(text.substring_char(lo + n, hi));
        out.append("\x1b[0m");
        assert(cs@.subrange(lo + n, hi as int) =~= line.skip(n as int));
    } else {
        out.append(text.substring_char(lo, hi));
    }
}

/// Colours the `--help-detail` text for a terminal: headings bold cyan,
/// `Example:` green, the program name in command lines bold blue, option
/// lines yellow. Every other line, and every newline, is kept.
pub fn colorize_help_detail(text: &str) -> (out: String)
    ensures
        out@ == colorize_spec(text@),
{
    let cs = chars_of(text);
    let n = cs.len();
    let mut out = String::new();
    let mut start: usize = 0;
    let mut i: usize = 0;
    proof {
        reveal_strlit("\n");
        assert(cs@.skip(0) =~= cs@);
        assert(cs@.subrange(0, 0) =~= Seq::<char>::empty());
        assert(out@ + colorize_spec(text@) =~= colorize_spec(text@));
    }
    while i < n
        invariant
            cs@ == text@,
            n == cs@.len(),
            start <= i <= n,
            "\n"@ == seq!['\n'],
            out@ + colorize_from(cs@.skip(i as int), cs@.subrange(start as int, i as int))
                == colorize_spec(text@),
        decreases n - i,
    {
        let ghost rest = cs@.skip(i as int);
        let ghost line = cs@.subrange(start as int, i as int);
        assert(rest.drop_first() =~= cs@.skip(i + 1));
        if cs[i] == '\n' {
            push_formatted_line(&mut out, text, &cs, start, i);
            out.append("\n");
            start = i + 1;
            assert(cs@.subrange(start as int, i + 1) =~= Seq::<char>::empty());
        } else {
            assert(line.push(cs@[i as int]) =~= cs@.subrange(start as int, i + 1));
        }
        i = i + 1;
    }
    if start < n {
        push_formatted_line(&mut out, text, &cs, start, n);
    }
    proof {
        assert(cs@.skip(n as int) =~= Seq::<char>::empty());
    }
    out
}


/// Whether `s` holds no newline.
pub open spec fn no_newline(s: Seq<char>) -> bool {
    forall|i: int| 0 <= i < s.len() ==> s[i] != '\n'
}

/// Reading characters that hold no newline only extends the current line.
proof fn lemma_read_within_line(x: Seq<char>, r: Seq<char>, line: Seq<char>)
    requires
        no_newline(x),
    ensures
        colorize_from(x + r, line) == colorize_from(r, line + x),
    decreases x.len(),
{
    if x.len() == 0 {
        assert(x + r =~= r);
        assert(line + x =~= line);
    } else {
        assert((x + r)[0] == x[0]);
        assert((x + r).drop_first() =~= x.drop_first() + r);
        assert(line.push(x[0]) + x.drop_first() =~= line + x);
        lemma_read_within_line(x.drop_first(), r, line.push(x[0]));
    }
}

/// The contents of the colour codes and line leads.
proof fn lemma_marker_contents()
    ensures
        heading_on() =~= seq!['\x1b', '[', '1', ';', '3', '6', 'm'],
        sgr_reset() =~= seq!['\x1b', '[', '0', 'm'],
        example_lead() =~= seq![' ', ' ', ' ', ' ', ' ', ' ', 'E', 'x', 'a', 'm', 'p', 'l', 'e', ':'],
        example_tag() =~= seq![
            ' ', ' ', ' ', ' ', ' ', ' ', '\x1b', '[', '3', '2', 'm',
            'E', 'x', 'a', 'm', 'p', 'l', 'e', ':', '\x1b', '[', '0', 'm',
        ],
        command_lead() =~= seq![' ', ' ', 'c', 'o', 's', 'm', 'o', 's', 't', 'r', 'i', 'x'],
        command_tag() =~= seq![
            ' ', ' ', '\x1b', '[', '1', ';', '3', '4', 'm',
            'c', 'o', 's', 'm', 'o', 's', 't', 'r', 'i', 'x', '\x1b', '[', '0', 'm',
        ],
        short_option_lead() =~= seq![' ', ' ', '-'],
        short_option_tag() =~= seq![' ', ' ', '\x1b', '[', '3', '3', 'm', '-'],
        long_option_lead() =~= seq![' ', ' ', '-', '-'],
        long_option_tag() =~= seq![' ', ' ', '\x1b', '[', '3', '3', 'm', '-', '-'],
{
    reveal_strlit("\x1b[1;36m");
    reveal_strlit("\x1b[0m");
    reveal_strlit("      Example:");
    reveal_strlit("      \x1b[32mExample:\x1b[0m");
    reveal_strlit("  cosmostrix");
    reveal_strlit("  \x1b[1;34mcosmostrix\x1b[0m");
    reveal_strlit("  -");
    reveal_strlit("  \x1b[33m-");
    reveal_strlit("  --");
    reveal_strlit("  \x1b[33m--");
}

/// A formatted line holds a newline only where the line held one, and is
/// empty only when the line is.
proof fn lemma_format_line_shape(line: Seq<char>)
    requires
        no_newline(line),
    ensures
        no_newline(format_line(line)),
        format_line(line).len() == 0 <==> line.len() == 0,
{
    lemma_marker_contents();
    let f = format_line(line);
    assert forall|i: int| 0 <= i < f.len() implies f[i] != '\n' by {
        if is_heading(line) {
            assert(f == heading_on() + line + sgr_reset());
            if i >= heading_on().len() && i < heading_on().len() + line.len() {
                assert(f[i] == line[i - heading_on().len()]);
            }
        } else if has_prefix(line, example_lead()) {
            if i >= example_tag().len() {
                assert(f[i] == line[i - example_tag().len() + example_lead().len()]);
            }
        } else if has_prefix(line, command_lead()) {
            if i >= command_tag().len() {
                assert(f[i] == line[i - command_tag().len() + command_lead().len()]);
            }
        } else if has_prefix(line, short_option_lead()) {
            let t = short_option_tag();
            let k = short_option_lead().len();
            if t.len() <= i < t.len() + line.len() - k {
                assert(f[i] == line[i - t.len() + k]);
            }
        } else if has_prefix(line, long_option_lead()) {
            let t = long_option_tag();
            let k = long_option_lead().len();
            if t.len() <= i < t.len() + line.len() - k {
                assert(f[i] == line[i - t.len() + k]);
            }
        }
    }
}

/// Formatting a formatted line changes nothing: the colour codes break
/// every rule that the line could match.
proof fn lemma_format_line_idempotent(line: Seq<char>)
    ensures
        format_line(format_line(line)) == format_line(line),
{
    lemma_marker_contents();
    let f = format_line(line);
    if is_heading(line) {
        assert(f[0] == '\x1b');
        assert(f.last() == 'm');
        assert(!has_prefix(f, example_lead()) && example_lead()[0] != f[0]);
        assert(!has_prefix(f, command_lead()) && command_lead()[0] != f[0]);
        assert(!has_prefix(f, short_option_lead()) && short_option_lead()[0] != f[0]);
        assert(!has_prefix(f, long_option_lead()) && long_option_lead()[0] != f[0]);
    } else if has_prefix(line, example_lead()) {
        assert(f[0] == ' ');
        assert(f[6] == '\x1b' && f[2] == ' ');
        assert(example_lead()[6] != f[6]);
        assert(command_lead()[2] != f[2]);
        assert(short_option_lead()[2] != f[2]);
        assert(long_option_lead()[2] != f[2]);
    } else if has_prefix(line, command_lead()) {
        assert(f[0] == ' ');
        assert(f[2] == '\x1b');
        assert(example_lead()[2] != f[2]);
        assert(command_lead()[2] != f[2]);
        assert(short_option_lead()[2] != f[2]);
        assert(long_option_lead()[2] != f[2]);
    } else if has_prefix(line, short_option_lead()) {
        assert(f[0] == ' ');
        assert(f[2] == '\x1b');
        assert(example_lead()[2] != f[2]);
        assert(command_lead()[2] != f[2]);
        assert(short_option_lead()[2] != f[2]);
        assert(long_option_lead()[2] != f[2]);
    } else if has_prefix(line, long_option_lead()) {
        assert(f[0] == ' ');
        assert(f[2] == '\x1b');
        assert(example_lead()[2] != f[2]);
        assert(command_lead()[2] != f[2]);
        assert(short_option_lead()[2] != f[2]);
        assert(long_option_lead()[2] != f[2]);
    }
}

proof fn lemma_colorize_from_idempotent(t: Seq<char>, line: Seq<char>)
    requires
        no_newline(line),
    ensures
        colorize_spec(colorize_from(t, line)) == colorize_from(t, line),
    decreases t.len(),
{
    if t.len() == 0 {
        if line.len() > 0 {
            let f = format_line(line);
            lemma_format_line_shape(line);
            lemma_read_within_line(f, Seq::empty(), Seq::empty());
            assert(f + Seq::<char>::empty() =~= f);
            assert(Seq::<char>::empty() + f =~= f);
            lemma_format_line_idempotent(line);
        }
    } else if t[0] == '\n' {
        let f = format_line(line);
        let r = colorize_from(t.drop_first(), Seq::empty());
        lemma_format_line_shape(line);
        lemma_colorize_from_idempotent(t.drop_first(), Seq::empty());
        assert(f + seq!['\n'] + r =~= f + (seq!['\n'] + r));
        lemma_read_within_line(f, seq!['\n'] + r, Seq::empty());
        assert(Seq::<char>::empty() + f =~= f);
        assert((seq!['\n'] + r).drop_first() =~= r);
        lemma_format_line_idempotent(line);
    } else {
        lemma_colorize_from_idempotent(t.drop_first(), line.push(t[0]));
    }
}

/// Colouring an already coloured text changes nothing.
pub proof fn lemma_colorize_idempotent(text: Seq<char>)
    ensures
        colorize_spec(colorize_spec(text)) == colorize_spec(text),
{
    lemma_colorize_from_idempotent(text, Seq::empty());
}

proof fn lemma_colorize_from_append(a: Seq<char>, b: Seq<char>, line: Seq<char>)
    requires
        a.len() > 0,
        a.last() == '\n',
    ensures
        colorize_from(a + b, line) == colorize_from(a, line) + colorize_spec(b),
    decreases a.len(),
{
    assert((a + b)[0] == a[0]);
    assert((a + b).drop_first() =~= a.drop_first() + b);
    if a[0] == '\n' {
        if a.len() == 1 {
            assert(a.drop_first() + b =~= b);
            assert(colorize_from(a.drop_first(), Seq::empty()) =~= Seq::<char>::empty());
        } else {
            lemma_colorize_from_append(a.drop_first(), b, Seq::empty());
        }
    } else {
        lemma_colorize_from_append(a.drop_first(), b, line.push(a[0]));
    }
}

/// Colouring works line by line: a text cut after a newline is coloured as
/// its two parts are, one after the other.
pub proof fn lemma_colorize_append(a: Seq<char>, b: Seq<char>)
    requires
        a.len() == 0 || a.last() == '\n',
    ensures
        colorize_spec(a + b) == colorize_spec(a) + colorize_spec(b),
{
    if a.len() == 0 {
        assert(a + b =~= b);
        assert(colorize_spec(a) + colorize_spec(b) =~= colorize_spec(b));
    } else {
        lemma_colorize_from_append(a, b, Seq::empty());
    }
}


/// Whether `c` may stand between `ESC [` and `m` in an SGR code.
pub open spec fn is_sgr_param(c: char) -> bool {
    ('0' <= c <= '9') || c == ';'
}

/// Where the run of SGR parameter characters of `s` that starts at `i` ends.
pub open spec fn sgr_param_end(s: Seq<char>, i: int) -> int
    decreases s.len() - i,
{
    if 0 <= i < s.len() && is_sgr_param(s[i]) {
        sgr_param_end(s, i + 1)
    } else {
        i
    }
}

/// The parameter run found from `i` ends between `i` and the end of `s`.
pub proof fn lemma_sgr_param_end(s: Seq<char>, i: int)
    requires
        0 <= i <= s.len(),
    ensures
        i <= sgr_param_end(s, i) <= s.len(),
    decreases s.len() - i,
{
    if i < s.len() && is_sgr_param(s[i]) {
        lemma_sgr_param_end(s, i + 1);
    }
}

/// The length of the SGR code `ESC [ params m` that `s` starts with, if it
/// starts with one.
pub open spec fn sgr_code_len(s: Seq<char>) -> Option<int> {
    if s.len() >= 2 && s[0] == '\x1b' && s[1] == '[' && sgr_param_end(s, 2) < s.len() && s[sgr_param_end(
        s,
        2,
    )] == 'm' {
        Some(sgr_param_end(s, 2) + 1)
    } else {
        None
    }
}

/// `s` with every SGR code (`ESC [`, digits and semicolons, `m`) deleted.
pub open spec fn strip_sgr(s: Seq<char>) -> Seq<char>
    decreases s.len(),
{
    if s.len() == 0 {
        Seq::empty()
    } else {
        match sgr_code_len(s) {
            Some(k) => {
                proof {
                    lemma_sgr_param_end(s, 2);
                }
                strip_sgr(s.skip(k))
            },
            None => seq![s[0]] + strip_sgr(s.drop_first()),
        }
    }
}

/// Whether `s` holds no escape character.
pub open spec fn no_escape(s: Seq<char>) -> bool {
    forall|i: int| 0 <= i < s.len() ==> s[i] != '\x1b'
}

/// Whether `c` is one whole SGR code.
pub open spec fn is_sgr_code(c: Seq<char>) -> bool {
    &&& c.len() >= 3
    &&& c[0] == '\x1b'
    &&& c[1] == '['
    &&& c.last() == 'm'
    &&& forall|i: int| 2 <= i < c.len() - 1 ==> is_sgr_param(#[trigger] c[i])
}

/// Text without escapes passes through unchanged.
pub proof fn lemma_strip_plain(a: Seq<char>, b: Seq<char>)
    requires
        no_escape(a),
    ensures
        strip_sgr(a + b) == a + strip_sgr(b),
    decreases a.len(),
{
    if a.len() == 0 {
        assert(a + b =~= b);
        assert(a + strip_sgr(b) =~= strip_sgr(b));
    } else {
        let s = a + b;
        assert(s[0] == a[0]);
        assert(s.drop_first() =~= a.drop_first() + b);
        lemma_strip_plain(a.drop_first(), b);
        assert(seq![a[0]] + (a.drop_first() + strip_sgr(b)) =~= a + strip_sgr(b));
    }
}

proof fn lemma_code_params(c: Seq<char>, b: Seq<char>, i: int)
    requires
        is_sgr_code(c),
        2 <= i <= c.len() - 1,
    ensures
        sgr_param_end(c + b, i) == c.len() - 1,
    decreases c.len() - i,
{
    let s = c + b;
    if i < c.len() - 1 {
        assert(s[i] == c[i]);
        lemma_code_params(c, b, i + 1);
    } else {
        assert(s[i] == 'm');
    }
}

/// A whole SGR code is deleted.
pub proof fn lemma_strip_code(c: Seq<char>, b: Seq<char>)
    requires
        is_sgr_code(c),
    ensures
        strip_sgr(c + b) == strip_sgr(b),
{
    let s = c + b;
    lemma_code_params(c, b, 2);
    assert(s[0] == '\x1b' && s[1] == '[');
    assert(s[c.len() - 1] == 'm');
    assert(sgr_code_len(s) == Some(c.len() as int));
    assert(s.skip(c.len() as int) =~= b);
}

/// The SGR codes that colouring inserts.
pub proof fn lemma_inserted_codes()
    ensures
        is_sgr_code(heading_on()),
        is_sgr_code(sgr_reset()),
        is_sgr_code(seq!['\x1b', '[', '3', '2', 'm']),
        is_sgr_code(seq!['\x1b', '[', '1', ';', '3', '4', 'm']),
        is_sgr_code(seq!['\x1b', '[', '3', '3', 'm']),
{
    lemma_marker_contents();
}

/// Deleting the SGR codes of a formatted line gives the line back.
proof fn lemma_strip_format_line(line: Seq<char>, r: Seq<char>)
    requires
        no_escape(line),
    ensures
        strip_sgr(format_line(line) + r) == line + strip_sgr(r),
{
    lemma_marker_contents();
    lemma_inserted_codes();
    let reset = sgr_reset();
    if is_heading(line) {
        let h = heading_on();
        assert(format_line(line) + r =~= h + (line + (reset + r)));
        lemma_strip_code(h, line + (reset + r));
        lemma_strip_plain(line, reset + r);
        lemma_strip_code(reset, r);
    } else if has_prefix(line, example_lead()) {
        let spaces = seq![' ', ' ', ' ', ' ', ' ', ' '];
        let green = seq!['\x1b', '[', '3', '2', 'm'];
        let word = seq!['E', 'x', 'a', 'm', 'p', 'l', 'e', ':'];
        let rest = line.skip(example_lead().len() as int);
        assert(example_tag() =~= spaces + green + word + reset);
        assert(line =~= spaces + word + rest);
        assert(format_line(line) + r =~= spaces + (green + (word + (reset + (rest + r)))));
        lemma_strip_plain(spaces, green + (word + (reset + (rest + r))));
        lemma_strip_code(green, word + (reset + (rest + r)));
        lemma_strip_plain(word, reset + (rest + r));
        lemma_strip_code(reset, rest + r);
        lemma_strip_plain(rest, r);
        assert(spaces + (word + (rest + strip_sgr(r))) =~= line + strip_sgr(r));
    } else if has_prefix(line, command_lead()) {
        let spaces = seq![' ', ' '];
        let blue = seq!['\x1b', '[', '1', ';', '3', '4', 'm'];
        let word = seq!['c', 'o', 's', 'm', 'o', 's', 't', 'r', 'i', 'x'];
        let rest = line.skip(command_lead().len() as int);
        assert(command_tag() =~= spaces + blue + word + reset);
        assert(line =~= spaces + word + rest);
        assert(format_line(line) + r =~= spaces + (blue + (word + (reset + (rest + r)))));
        lemma_strip_plain(spaces, blue + (word + (reset + (rest + r))));
        lemma_strip_code(blue, word + (reset + (rest + r)));
        lemma_strip_plain(word, reset + (rest + r));
        lemma_strip_code(reset, rest + r);
        lemma_strip_plain(rest, r);
        assert(spaces + (word + (rest + strip_sgr(r))) =~= line + strip_sgr(r));
    } else if has_prefix(line, short_option_lead()) || has_prefix(line, long_option_lead()) {
        let spaces = seq![' ', ' '];
        let yellow = seq!['\x1b', '[', '3', '3', 'm'];
        let lead = if has_prefix(line, short_option_lead()) {
            short_option_lead()
        } else {
            long_option_lead()
        };
        let dashes = lead.skip(2);
        let rest = line.skip(lead.len() as int);
        assert(lead =~= spaces + dashes);
        assert(line =~= spaces + dashes + rest);
        assert(format_line(line) + r =~= spaces + (yellow + (dashes + (rest + (reset + r)))));
        lemma_strip_plain(spaces, yellow + (dashes + (rest + (reset + r))));
        lemma_strip_code(yellow, dashes + (rest + (reset + r)));
        lemma_strip_plain(dashes, rest + (reset + r));
        lemma_strip_plain(rest, reset + r);
        lemma_strip_code(reset, r);
        assert(spaces + (dashes + (rest + strip_sgr(r))) =~= line + strip_sgr(r));
    } else {
        lemma_strip_plain(line, r);
    }
}

proof fn lemma_strip_colorize_from(t: Seq<char>, line: Seq<char>, r: Seq<char>)
    requires
        no_escape(t),
        no_escape(line),
    ensures
        strip_sgr(colorize_from(t, line) + r) == line + t + strip_sgr(r),
    decreases t.len(),
{
    if t.len() == 0 {
        assert(line + t =~= line);
        if line.len() == 0 {
            assert(Seq::<char>::empty() + r =~= r);
            assert(line + strip_sgr(r) =~= strip_sgr(r));
        } else {
            lemma_strip_format_line(line, r);
        }
    } else if t[0] == '\n' {
        let rest = colorize_from(t.drop_first(), Seq::empty());
        let nl = seq!['\n'];
        assert(colorize_from(t, line) + r =~= format_line(line) + (nl + (rest + r)));
        lemma_strip_format_line(line, nl + (rest + r));
        lemma_strip_plain(nl, rest + r);
        lemma_strip_colorize_from(t.drop_first(), Seq::empty(), r);
        assert(Seq::<char>::empty() + t.drop_first() =~= t.drop_first());
        assert(line + (nl + (t.drop_first() + strip_sgr(r))) =~= line + t + strip_sgr(r));
    } else {
        lemma_strip_colorize_from(t.drop_first(), line.push(t[0]), r);
        assert(line.push(t[0]) + t.drop_first() =~= line + t);
    }
}

/// Colouring only inserts SGR codes: deleting them from the coloured form
/// of a text without escapes gives the text back, whatever follows it.
pub proof fn lemma_colorize_strips_to_text(text: Seq<char>, rest: Seq<char>)
    requires
        no_escape(text),
    ensures
        strip_sgr(colorize_spec(text) + rest) == text + strip_sgr(rest),
        strip_sgr(colorize_spec(text)) == text,
{
    lemma_strip_colorize_from(text, Seq::empty(), rest);
    assert(Seq::<char>::empty() + text =~= text);
    lemma_strip_colorize_from(text, Seq::empty(), Seq::empty());
    assert(colorize_spec(text) + Seq::<char>::empty() =~= colorize_spec(text));
    assert(text + Seq::<char>::empty() =~= text);
}

} // verus!
