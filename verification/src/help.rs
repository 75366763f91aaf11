//! The texts of `--list-charsets`, `--list-colors` and `--help-detail`, and
//! the decision whether standard output is coloured.

use vstd::prelude::*;
use crate::colorize::{
    colorize_help_detail, colorize_spec, heading_on, lemma_colorize_strips_to_text,
    lemma_strip_code, lemma_strip_plain, no_escape, sgr_reset, strip_sgr,
};

verus! {

/// Title of the charset list on a colour terminal.
pub const CHARSETS_TITLE_COLOR: &'static str = "\x1b[1;36mAVAILABLE CHARSET PRESETS:\x1b[0m
\x1b[2mNOTE: Use only the VALUE (left side) with --charset.\x1b[0m
";

/// Title of the charset list without colour.
pub const CHARSETS_TITLE_PLAIN: &'static str = "AVAILABLE CHARSET PRESETS:
NOTE: Use only the VALUE (left side) with --charset.
";

/// The table of charset presets, after a blank line.
pub const CHARSETS_TABLE: &'static str = "
VALUE        DESCRIPTION
auto         Auto-select (ASCII_SAFE when non-UTF, otherwise matrix)
matrix       Letters + digits + katakana (no punctuation)
ascii        Letters + digits + punctuation
extended     Digits + punctuation + katakana
english      Letters only
digits       Digits only (aliases: dec, decimal)
punc         Punctuation only
binary       0 and 1 (aliases: bin, 01)
hex          0-9 and A-F (alias: hexadecimal)
katakana     Katakana
greek        Greek
cyrillic     Cyrillic
hebrew       Hebrew
blocks       Block elements (shading blocks)
symbols      Math/technical symbols
arrows       Arrow symbols
retro        Box-drawing characters
cyberpunk    Katakana + hex + symbols (combo)
hacker       Letters + hex + punc + symbols (combo)
minimal      Dots and simple shapes
code         Letters + digits + punc + symbols (combo)
dna          DNA bases (ACGT)
braille      Braille
runic        Runic
";

/// Title of the colour theme list on a colour terminal.
pub const COLORS_TITLE_COLOR: &'static str = "\x1b[1;36mAVAILABLE COLOR THEMES:\x1b[0m
\x1b[2mNOTE: Use only the VALUE (left side) with --color.\x1b[0m
";

/// Title of the colour theme list without colour.
pub const COLORS_TITLE_PLAIN: &'static str = "AVAILABLE COLOR THEMES:
NOTE: Use only the VALUE (left side) with --color.
";

/// The table of colour themes, after a blank line.
pub const COLORS_TABLE: &'static str = "
VALUE        DESCRIPTION
green        Green theme
green2       Green variant
green3       Green variant
yellow       Yellow theme
orange       Orange theme
red          Red theme
blue         Blue theme
cyan         Cyan theme
gold         Gold theme
rainbow      Rainbow theme
purple       Purple theme
neon         Neon theme (alias: synthwave)
fire         Fire theme (alias: inferno)
ocean        Ocean theme (alias: deep-sea)
forest       Forest theme (alias: jungle)
vaporwave    Vaporwave theme
spectrum20   Spectrum 20-color theme (aliases: theme20, spectrum-20)
gray         Gray theme (alias: grey)
snow         Snow / ice theme
aurora       Aurora theme
fancy-diamond Fancy diamond theme
cosmos       Cosmos theme
nebula       Nebula theme
stars        Stars theme
mars         Mars theme
venus        Venus theme
mercury      Mercury theme
jupiter      Jupiter theme
saturn       Saturn theme
uranus       Uranus theme
neptune      Neptune theme
pluto        Pluto theme
moon         Moon theme
sun          Sun theme
comet        Comet theme
galaxy       Galaxy theme
supernova    Supernova theme
blackhole    Black hole theme
andromeda    Andromeda theme
stardust     Stardust theme
meteor       Meteor theme
eclipse      Eclipse theme
deepspace    Deep space theme
";

/// Usage and every option of `--help-detail`.
pub const HELP_OPTIONS: &'static str = "USAGE:
  cosmostrix [OPTIONS]

COMMON OPTIONS:
  -c, --color <name>
      Set theme (see --list-colors).
      Example: cosmostrix --color rainbow

  --charset <name>
      Charset preset (see --list-charsets).
      Example: cosmostrix --charset binary

  -f, --fps <number>
      Target FPS (min 1 max 240) [default: 60].
      Example: cosmostrix --fps 30

  -S, --speed <number>
      Characters per second (rain speed) (min 0.001 max 1000) [default: 8].
      Example: cosmostrix --speed 12

  -d, --density <number>
      Droplet density (min 0.01 max 5.0) [default: 1.0].
      Example: cosmostrix --density 1.25

  -s, --screensaver
      Screensaver mode (exit on keypress).
      Example: cosmostrix -s

  -m, --message <text>
      Overlay message.
      Example: cosmostrix -m \"hello\"

  --low-power
      Power-saving mode. Overrides default values for FPS, speed, and density
      when those flags are not explicitly set:
        - FPS: 30 (if not explicitly set)
        - Speed: 5 (if not explicitly set)
        - Density: 0.5 (if not explicitly set)
      Explicit CLI flags always take precedence over --low-power defaults.
      Example: cosmostrix --low-power
      Example: cosmostrix --low-power --fps 24

APPEARANCE (ADVANCED):
  --colormode <0|8|24>
      Force color mode; otherwise auto-detected from COLORTERM/TERM.
      Example: cosmostrix --colormode 24

  -b, --bold <0|1|2>
      Bold style (0 off, 1 random, 2 all) [default: 1].
      Example: cosmostrix --bold 2

  -M, --shadingmode <0|1>
      Shading (0 random, 1 distance-from-head) [default: 1].
      Example: cosmostrix -M 1

  --color-bg <black|default-background|transparent>
      Background mode.
      Example: cosmostrix --color-bg transparent

GENERAL (ADVANCED):
  -a, --async
      Async rendering (default: off).
      To enable: --async or --async=true
      Example: cosmostrix --async

  -F, --fullwidth
      Use full terminal width.
      Example: cosmostrix -F

  --duration <seconds>
      Stop after N seconds (min 0.1 max 86400).
      Example: cosmostrix --duration 10

  --message-no-border, -mB
      Draw filled box without border characters.

PERFORMANCE (ADVANCED):
  --maxdpc <number>
      Max droplets per column (min 1 max 3) [default: 3].
      Example: cosmostrix --maxdpc 2

  --perf-stats
      Print performance statistics summary on exit.
      Example: cosmostrix --duration 10 --perf-stats

CHARSET (ADVANCED):
  --chars <string>
      Custom character override.
      Example: cosmostrix --chars \"01\"

GLITCH (ADVANCED):
  --noglitch
      Disable glitch effects (default: on).
      To enable glitch: --noglitch=false
      Example: cosmostrix --noglitch=false

  -G, --glitchpct <number>
      Glitch chance in percent (min 0 max 100) [default: 10].
      Example: cosmostrix --glitchpct 5

  -g, --glitchms <low,high>
      Glitch duration range in ms (min 1 max 5000) [default: 300,400].
      Example: cosmostrix --glitchms 200,500

  -l, --lingerms <low,high>
      Linger duration range in ms (min 1 max 60000) [default: 1,3000].
      Example: cosmostrix --lingerms 1,3000

  --shortpct <number>
      Short droplet chance in percent (min 0 max 100) [default: 50].
      Example: cosmostrix --shortpct 40

  -r, --rippct <number>
      Die-early chance in percent (min 0 max 100) [default: 33.33333].
      Example: cosmostrix --rippct 20

DIAGNOSTICS:
  --doctor
      Print compatibility report and exit.
      Example: cosmostrix --doctor

  --benchmark
      Run renderer benchmark (5 seconds) and print results.
      Example: cosmostrix --benchmark

  --check-bitcolor
      Print detected terminal color capability and exit.
      Example: cosmostrix --check-bitcolor

  --bench-frames <frames>
      Run headless benchmark for N frames and exit.
      Example: cosmostrix --fps 60 --bench-frames 200000

HELP:
  --help
      Show short help (curated common options only).

  --help-detail
      Show this detailed help (full engineering reference).

  --list-charsets
      List available charset presets and exit.

  --list-colors
      List available color themes and exit.

  -v, --version
      Print version and exit.

  -i, --info
      Print version info and exit.
";

/// The keys that act while the animation runs.
pub const HELP_RUNTIME_KEYS: &'static str = "RUNTIME KEYS:
  q / Esc
      Quit
  p
      Pause/resume
  Ctrl+Z
      Suspend (resume with: fg)
  Space
      Reset/reseed animation
  Up / Down
      Increase/decrease speed
  [ / -
      Decrease density
  ] / +
      Increase density
  c / C
      Cycle color theme (next/previous)
  s / S
      Cycle charset preset (next/previous)
  a
      Toggle async rendering
  g
      Toggle glitch effects on/off
  m
      Cycle behavior profile (Monolith/Void/Neural/Decay/Eclipse/Static/Pulse)
  Left / Right
      Change glitch percent (when glitch is on)
  Tab
      Toggle shading mode
";

/// The environment variables that the program reads.
pub const HELP_ENVIRONMENT: &'static str = "ENVIRONMENT:
  COSMOSTRIX_NO_FORK_GUARD
      Linux only. Set to 1/true/on/yes to disable the fork-based SIGKILL (-9) terminal guard.
      Values 0/false/off/no/empty keep the guard enabled.
";

/// Pointers to the value lists, and the heading of the limits table.
pub const HELP_VALUE_LISTS: &'static str = "VALUE LISTS:
  cosmostrix --list-charsets
  cosmostrix --list-colors

LIMITS / VALID RANGES:
";

/// The limits table, which is never coloured.
pub const HELP_LIMITS: &'static str = "  --duration <seconds>     min 0.1 max 86400 (<=0 disables)
  --perf-stats             print performance summary on exit
  --bench-frames <frames>  min 1
  --fps <number>           min 1 max 240 [default: 60]
  --speed <number>         min 0.001 max 1000 [default: 8]
  --density <number>       min 0.01 max 5.0 [default: 1.0]
  --maxdpc <number>        min 1 max 3 [default: 3]
  --glitchpct <number>     min 0 max 100 [default: 10]
  --shortpct <number>      min 0 max 100 [default: 50]
  --rippct <number>        min 0 max 100 [default: 33.33333]
  --glitchms <low,high>    min 1 max 5000 (each) [default: 300,400]
  --lingerms <low,high>    min 1 max 60000 (each) [default: 1,3000]
  --bold <0|1|2>           min 0 max 2 [default: 1]
  --shadingmode <0|1>      min 0 max 1 [default: 1]
  --colormode <0|16|8|24>  allowed values only (8==256, 24==32)
";

/// `text`, coloured when `color` holds.
pub open spec fn styled(text: Seq<char>, color: bool) -> Seq<char> {
    if color {
        colorize_spec(text)
    } else {
        text
    }
}

/// The `--list-charsets` text.
pub open spec fn list_charsets_spec(color: bool) -> Seq<char> {
    (if color {
        CHARSETS_TITLE_COLOR@
    } else {
        CHARSETS_TITLE_PLAIN@
    }) + CHARSETS_TABLE@
}

/// The `--list-colors` text.
pub open spec fn list_colors_spec(color: bool) -> Seq<char> {
    (if color {
        COLORS_TITLE_COLOR@
    } else {
        COLORS_TITLE_PLAIN@
    }) + COLORS_TABLE@
}

/// The `--help-detail` text: four sections, coloured on a colour terminal,
/// the limits table, then the charset and colour theme lists, each after a
/// blank line.
pub open spec fn help_detail_spec(color: bool) -> Seq<char> {
    styled(HELP_OPTIONS@, color) + styled(HELP_RUNTIME_KEYS@, color) + styled(
        HELP_ENVIRONMENT@,
        color,
    ) + styled(HELP_VALUE_LISTS@, color) + HELP_LIMITS@ + "\n"@ + list_charsets_spec(color)
        + "\n"@ + list_colors_spec(color)
}

/// Whether standard output gets colour: not when `NO_COLOR` is set, not when
/// `CLICOLOR` is `0`, and otherwise only on a terminal.
pub open spec fn color_enabled_spec(
    no_color_set: bool,
    clicolor: Option<Seq<char>>,
    stdout_is_terminal: bool,
) -> bool {
    !no_color_set && clicolor != Some("0"@) && stdout_is_terminal
}

/// Decides whether standard output is coloured, from whether `NO_COLOR` is
/// set, the value of `CLICOLOR` (when it is set and valid Unicode), and
/// whether standard output is a terminal.
pub fn color_enabled(no_color_set: bool, clicolor: Option<String>, stdout_is_terminal: bool) -> (r:
    bool)
    ensures
        r == color_enabled_spec(
            no_color_set,
            match clicolor {
                Some(v) => Some(v@),
                None => None,
            },
            stdout_is_terminal,
        ),
{
    if no_color_set {
        return false;
    }
    match clicolor {
        Some(v) => {
            let zero = String::from_str("0");
            if v == zero {
                return false;
            }
        },
        None => {},
    }
    stdout_is_terminal
}

/// Colour is never used when standard output is not a terminal, nor when
/// `NO_COLOR` is set, nor when `CLICOLOR` is `0`; on a terminal with neither
/// of those it is used, whatever else `CLICOLOR` holds.
pub proof fn lemma_color_needs_terminal(
    no_color_set: bool,
    clicolor: Option<Seq<char>>,
    stdout_is_terminal: bool,
)
    ensures
        !stdout_is_terminal ==> !color_enabled_spec(no_color_set, clicolor, stdout_is_terminal),
        no_color_set ==> !color_enabled_spec(no_color_set, clicolor, stdout_is_terminal),
        clicolor == Some("0"@) ==> !color_enabled_spec(no_color_set, clicolor, stdout_is_terminal),
        stdout_is_terminal && !no_color_set && clicolor != Some("0"@) ==> color_enabled_spec(
            no_color_set,
            clicolor,
            stdout_is_terminal,
        ),
{
}

fn styled_text(text: &str, color: bool) -> (s: String)
    ensures
        s@ == styled(text@, color),
{
    if color {
        colorize_help_detail(text)
    } else {
        String::from_str(text)
    }
}

/// The text that `--list-charsets` prints.
pub fn list_charsets_text(color: bool) -> (s: String)
    ensures
        s@ == list_charsets_spec(color),
{
    let mut s = if color {
        String::from_str(CHARSETS_TITLE_COLOR)
    } else {
        String::from_str(CHARSETS_TITLE_PLAIN)
    };
    s.append(CHARSETS_TABLE);
    s
}

/// The text that `--list-colors` prints.
pub fn list_colors_text(color: bool) -> (s: String)
    ensures
        s@ == list_colors_spec(color),
{
    let mut s = if color {
        String::from_str(COLORS_TITLE_COLOR)
    } else {
        String::from_str(COLORS_TITLE_PLAIN)
    };
    s.append(COLORS_TABLE);
    s
}

/// The text that `--help-detail` prints.
pub fn help_detail_text(color: bool) -> (s: String)
    ensures
        s@ == help_detail_spec(color),
{
    let mut s = styled_text(HELP_OPTIONS, color);
    let part = styled_text(HELP_RUNTIME_KEYS, color);
    s.append(part.as_str());
    let part = styled_text(HELP_ENVIRONMENT, color);
    s.append(part.as_str());
    let part = styled_text(HELP_VALUE_LISTS, color);
    s.append(part.as_str());
    s.append(HELP_LIMITS);
    s.append("\n");
    let part = list_charsets_text(color);
    s.append(part.as_str());
    s.append("\n");
    let part = list_colors_text(color);
    s.append(part.as_str());
    s
}


/// Dim, used for the note under a list title.
pub open spec fn dim_on() -> Seq<char> {
    seq!['\x1b', '[', '2', 'm']
}

/// A coloured list title is the plain one with its two lines wrapped in
/// SGR codes: a bold cyan title and a dim note.
proof fn lemma_strip_title(colored: Seq<char>, plain: Seq<char>, a: int, b: int, r: Seq<char>)
    requires
        no_escape(plain),
        0 <= a,
        0 <= b,
        plain.len() == a + b + 2,
        plain[a] == '\n',
        plain[a + b + 1] == '\n',
        colored == heading_on() + plain.take(a) + sgr_reset() + seq!['\n'] + dim_on()
            + plain.subrange(a + 1, a + 1 + b) + sgr_reset() + seq!['\n'],
    ensures
        strip_sgr(colored + r) == plain + strip_sgr(r),
{
    crate::colorize::lemma_inserted_codes();
    let h = heading_on();
    let reset = sgr_reset();
    let d = dim_on();
    let x = plain.take(a);
    let y = plain.subrange(a + 1, a + 1 + b);
    let nl = seq!['\n'];
    assert(crate::colorize::is_sgr_code(d));
    assert(no_escape(x) && no_escape(y)) by {
        assert forall|i: int| 0 <= i < x.len() implies x[i] != '\x1b' by {
            assert(x[i] == plain[i]);
        }
        assert forall|i: int| 0 <= i < y.len() implies y[i] != '\x1b' by {
            assert(y[i] == plain[a + 1 + i]);
        }
    }
    assert(colored + r =~= h + (x + (reset + (nl + (d + (y + (reset + (nl + r))))))));
    lemma_strip_code(h, x + (reset + (nl + (d + (y + (reset + (nl + r)))))));
    lemma_strip_plain(x, reset + (nl + (d + (y + (reset + (nl + r))))));
    lemma_strip_code(reset, nl + (d + (y + (reset + (nl + r)))));
    lemma_strip_plain(nl, d + (y + (reset + (nl + r))));
    lemma_strip_code(d, y + (reset + (nl + r)));
    lemma_strip_plain(y, reset + (nl + r));
    lemma_strip_code(reset, nl + r);
    lemma_strip_plain(nl, r);
    assert(x + (nl + (y + (nl + strip_sgr(r)))) =~= plain + strip_sgr(r));
}

proof fn lemma_title_shapes()
    ensures
        no_escape(CHARSETS_TITLE_PLAIN@),
        no_escape(COLORS_TITLE_PLAIN@),
        CHARSETS_TITLE_PLAIN@.len() == 26 + 52 + 2,
        CHARSETS_TITLE_PLAIN@[26] == '\n',
        CHARSETS_TITLE_PLAIN@[79] == '\n',
        CHARSETS_TITLE_COLOR@ == heading_on() + CHARSETS_TITLE_PLAIN@.take(26int) + sgr_reset()
            + seq!['\n'] + dim_on() + CHARSETS_TITLE_PLAIN@.subrange(27, 79) + sgr_reset()
            + seq!['\n'],
        COLORS_TITLE_PLAIN@.len() == 23 + 50 + 2,
        COLORS_TITLE_PLAIN@[23] == '\n',
        COLORS_TITLE_PLAIN@[74] == '\n',
        COLORS_TITLE_COLOR@ == heading_on() + COLORS_TITLE_PLAIN@.take(23int) + sgr_reset() + seq![
            '\n',
        ] + dim_on() + COLORS_TITLE_PLAIN@.subrange(24, 74) + sgr_reset() + seq!['\n'],
{
    reveal_strlit("\x1b[1;36m");
    reveal_strlit("\x1b[0m");
    reveal_strlit("\x1b[1;36mAVAILABLE CHARSET PRESETS:\x1b[0m
\x1b[2mNOTE: Use only the VALUE (left side) with --charset.\x1b[0m
");
    reveal_strlit("AVAILABLE CHARSET PRESETS:
NOTE: Use only the VALUE (left side) with --charset.
");
    reveal_strlit("\x1b[1;36mAVAILABLE COLOR THEMES:\x1b[0m
\x1b[2mNOTE: Use only the VALUE (left side) with --color.\x1b[0m
");
    reveal_strlit("AVAILABLE COLOR THEMES:
NOTE: Use only the VALUE (left side) with --color.
");
    assert(CHARSETS_TITLE_COLOR@ =~= heading_on() + CHARSETS_TITLE_PLAIN@.take(26int) + sgr_reset()
        + seq!['\n'] + dim_on() + CHARSETS_TITLE_PLAIN@.subrange(27, 79) + sgr_reset()
        + seq!['\n']);
    assert(COLORS_TITLE_COLOR@ =~= heading_on() + COLORS_TITLE_PLAIN@.take(23int) + sgr_reset()
        + seq!['\n'] + dim_on() + COLORS_TITLE_PLAIN@.subrange(24, 74) + sgr_reset()
        + seq!['\n']);
}

/// The plain texts hold no escape character.
pub proof fn lemma_plain_texts_have_no_escape()
    ensures
        no_escape(HELP_OPTIONS@),
        no_escape(HELP_RUNTIME_KEYS@),
        no_escape(HELP_ENVIRONMENT@),
        no_escape(HELP_VALUE_LISTS@),
        no_escape(HELP_LIMITS@),
        no_escape(CHARSETS_TABLE@),
        no_escape(COLORS_TABLE@),
{
    reveal_strlit("USAGE:
  cosmostrix [OPTIONS]

COMMON OPTIONS:
  -c, --color <name>
      Set theme (see --list-colors).
      Example: cosmostrix --color rainbow

  --charset <name>
      Charset preset (see --list-charsets).
      Example: cosmostrix --charset binary

  -f, --fps <number>
      Target FPS (min 1 max 240) [default: 60].
      Example: cosmostrix --fps 30

  -S, --speed <number>
      Characters per second (rain speed) (min 0.001 max 1000) [default: 8].
      Example: cosmostrix --speed 12

  -d, --density <number>
      Droplet density (min 0.01 max 5.0) [default: 1.0].
      Example: cosmostrix --density 1.25

  -s, --screensaver
      Screensaver mode (exit on keypress).
      Example: cosmostrix -s

  -m, --message <text>
      Overlay message.
      Example: cosmostrix -m \"hello\"

  --low-power
      Power-saving mode. Overrides default values for FPS, speed, and density
      when those flags are not explicitly set:
        - FPS: 30 (if not explicitly set)
        - Speed: 5 (if not explicitly set)
        - Density: 0.5 (if not explicitly set)
      Explicit CLI flags always take precedence over --low-power defaults.
      Example: cosmostrix --low-power
      Example: cosmostrix --low-power --fps 24

APPEARANCE (ADVANCED):
  --colormode <0|8|24>
      Force color mode; otherwise auto-detected from COLORTERM/TERM.
      Example: cosmostrix --colormode 24

  -b, --bold <0|1|2>
      Bold style (0 off, 1 random, 2 all) [default: 1].
      Example: cosmostrix --bold 2

  -M, --shadingmode <0|1>
      Shading (0 random, 1 distance-from-head) [default: 1].
      Example: cosmostrix -M 1

  --color-bg <black|default-background|transparent>
      Background mode.
      Example: cosmostrix --color-bg transparent

GENERAL (ADVANCED):
  -a, --async
      Async rendering (default: off).
      To enable: --async or --async=true
      Example: cosmostrix --async

  -F, --fullwidth
      Use full terminal width.
      Example: cosmostrix -F

  --duration <seconds>
      Stop after N seconds (min 0.1 max 86400).
      Example: cosmostrix --duration 10

  --message-no-border, -mB
      Draw filled box without border characters.

PERFORMANCE (ADVANCED):
  --maxdpc <number>
      Max droplets per column (min 1 max 3) [default: 3].
      Example: cosmostrix --maxdpc 2

  --perf-stats
      Print performance statistics summary on exit.
      Example: cosmostrix --duration 10 --perf-stats

CHARSET (ADVANCED):
  --chars <string>
      Custom character override.
      Example: cosmostrix --chars \"01\"

GLITCH (ADVANCED):
  --noglitch
      Disable glitch effects (default: on).
      To enable glitch: --noglitch=false
      Example: cosmostrix --noglitch=false

  -G, --glitchpct <number>
      Glitch chance in percent (min 0 max 100) [default: 10].
      Example: cosmostrix --glitchpct 5

  -g, --glitchms <low,high>
      Glitch duration range in ms (min 1 max 5000) [default: 300,400].
      Example: cosmostrix --glitchms 200,500

  -l, --lingerms <low,high>
      Linger duration range in ms (min 1 max 60000) [default: 1,3000].
      Example: cosmostrix --lingerms 1,3000

  --shortpct <number>
      Short droplet chance in percent (min 0 max 100) [default: 50].
      Example: cosmostrix --shortpct 40

  -r, --rippct <number>
      Die-early chance in percent (min 0 max 100) [default: 33.33333].
      Example: cosmostrix --rippct 20

DIAGNOSTICS:
  --doctor
      Print compatibility report and exit.
      Example: cosmostrix --doctor

  --benchmark
      Run renderer benchmark (5 seconds) and print results.
      Example: cosmostrix --benchmark

  --check-bitcolor
      Print detected terminal color capability and exit.
      Example: cosmostrix --check-bitcolor

  --bench-frames <frames>
      Run headless benchmark for N frames and exit.
      Example: cosmostrix --fps 60 --bench-frames 200000

HELP:
  --help
      Show short help (curated common options only).

  --help-detail
      Show this detailed help (full engineering reference).

  --list-charsets
      List available charset presets and exit.

  --list-colors
      List available color themes and exit.

  -v, --version
      Print version and exit.

  -i, --info
      Print version info and exit.
");
    reveal_strlit("RUNTIME KEYS:
  q / Esc
      Quit
  p
      Pause/resume
  Ctrl+Z
      Suspend (resume with: fg)
  Space
      Reset/reseed animation
  Up / Down
      Increase/decrease speed
  [ / -
      Decrease density
  ] / +
      Increase density
  c / C
      Cycle color theme (next/previous)
  s / S
      Cycle charset preset (next/previous)
  a
      Toggle async rendering
  g
      Toggle glitch effects on/off
  m
      Cycle behavior profile (Monolith/Void/Neural/Decay/Eclipse/Static/Pulse)
  Left / Right
      Change glitch percent (when glitch is on)
  Tab
      Toggle shading mode
");
    reveal_strlit("ENVIRONMENT:
  COSMOSTRIX_NO_FORK_GUARD
      Linux only. Set to 1/true/on/yes to disable the fork-based SIGKILL (-9) terminal guard.
      Values 0/false/off/no/empty keep the guard enabled.
");
    reveal_strlit("VALUE LISTS:
  cosmostrix --list-charsets
  cosmostrix --list-colors

LIMITS / VALID RANGES:
");
    reveal_strlit("  --duration <seconds>     min 0.1 max 86400 (<=0 disables)
  --perf-stats             print performance summary on exit
  --bench-frames <frames>  min 1
  --fps <number>           min 1 max 240 [default: 60]
  --speed <number>         min 0.001 max 1000 [default: 8]
  --density <number>       min 0.01 max 5.0 [default: 1.0]
  --maxdpc <number>        min 1 max 3 [default: 3]
  --glitchpct <number>     min 0 max 100 [default: 10]
  --shortpct <number>      min 0 max 100 [default: 50]
  --rippct <number>        min 0 max 100 [default: 33.33333]
  --glitchms <low,high>    min 1 max 5000 (each) [default: 300,400]
  --lingerms <low,high>    min 1 max 60000 (each) [default: 1,3000]
  --bold <0|1|2>           min 0 max 2 [default: 1]
  --shadingmode <0|1>      min 0 max 1 [default: 1]
  --colormode <0|16|8|24>  allowed values only (8==256, 24==32)
");
    reveal_strlit("
VALUE        DESCRIPTION
auto         Auto-select (ASCII_SAFE when non-UTF, otherwise matrix)
matrix       Letters + digits + katakana (no punctuation)
ascii        Letters + digits + punctuation
extended     Digits + punctuation + katakana
english      Letters only
digits       Digits only (aliases: dec, decimal)
punc         Punctuation only
binary       0 and 1 (aliases: bin, 01)
hex          0-9 and A-F (alias: hexadecimal)
katakana     Katakana
greek        Greek
cyrillic     Cyrillic
hebrew       Hebrew
blocks       Block elements (shading blocks)
symbols      Math/technical symbols
arrows       Arrow symbols
retro        Box-drawing characters
cyberpunk    Katakana + hex + symbols (combo)
hacker       Letters + hex + punc + symbols (combo)
minimal      Dots and simple shapes
code         Letters + digits + punc + symbols (combo)
dna          DNA bases (ACGT)
braille      Braille
runic        Runic
");
    reveal_strlit("
VALUE        DESCRIPTION
green        Green theme
green2       Green variant
green3       Green variant
yellow       Yellow theme
orange       Orange theme
red          Red theme
blue         Blue theme
cyan         Cyan theme
gold         Gold theme
rainbow      Rainbow theme
purple       Purple theme
neon         Neon theme (alias: synthwave)
fire         Fire theme (alias: inferno)
ocean        Ocean theme (alias: deep-sea)
forest       Forest theme (alias: jungle)
vaporwave    Vaporwave theme
spectrum20   Spectrum 20-color theme (aliases: theme20, spectrum-20)
gray         Gray theme (alias: grey)
snow         Snow / ice theme
aurora       Aurora theme
fancy-diamond Fancy diamond theme
cosmos       Cosmos theme
nebula       Nebula theme
stars        Stars theme
mars         Mars theme
venus        Venus theme
mercury      Mercury theme
jupiter      Jupiter theme
saturn       Saturn theme
uranus       Uranus theme
neptune      Neptune theme
pluto        Pluto theme
moon         Moon theme
sun          Sun theme
comet        Comet theme
galaxy       Galaxy theme
supernova    Supernova theme
blackhole    Black hole theme
andromeda    Andromeda theme
stardust     Stardust theme
meteor       Meteor theme
eclipse      Eclipse theme
deepspace    Deep space theme
");
}

/// Deleting the SGR codes from the coloured `--list-charsets` and
/// `--list-colors` texts gives the plain texts (and leaves what follows
/// them as its codes are deleted).
pub proof fn lemma_lists_strip_to_plain(r: Seq<char>)
    ensures
        strip_sgr(list_charsets_spec(true) + r) == list_charsets_spec(false) + strip_sgr(r),
        strip_sgr(list_colors_spec(true) + r) == list_colors_spec(false) + strip_sgr(r),
{
    lemma_plain_texts_have_no_escape();
    lemma_title_shapes();
    assert(list_charsets_spec(true) + r =~= CHARSETS_TITLE_COLOR@ + (CHARSETS_TABLE@ + r));
    lemma_strip_title(CHARSETS_TITLE_COLOR@, CHARSETS_TITLE_PLAIN@, 26, 52, CHARSETS_TABLE@ + r);
    lemma_strip_plain(CHARSETS_TABLE@, r);
    assert(CHARSETS_TITLE_PLAIN@ + (CHARSETS_TABLE@ + strip_sgr(r)) =~= list_charsets_spec(false)
        + strip_sgr(r));
    assert(list_colors_spec(true) + r =~= COLORS_TITLE_COLOR@ + (COLORS_TABLE@ + r));
    lemma_strip_title(COLORS_TITLE_COLOR@, COLORS_TITLE_PLAIN@, 23, 50, COLORS_TABLE@ + r);
    lemma_strip_plain(COLORS_TABLE@, r);
    assert(COLORS_TITLE_PLAIN@ + (COLORS_TABLE@ + strip_sgr(r)) =~= list_colors_spec(false)
        + strip_sgr(r));
}

/// Colour only adds SGR codes to `--help-detail`: deleting them from the
/// coloured text gives the plain text.
pub proof fn lemma_help_detail_strips_to_plain()
    ensures
        strip_sgr(help_detail_spec(true)) == help_detail_spec(false),
{
    lemma_plain_texts_have_no_escape();
    reveal_strlit("\n");
    let nl = "\n"@;
    assert(no_escape(nl));
    let colors_tail = list_colors_spec(true);
    let charsets_tail = list_charsets_spec(true) + (nl + colors_tail);
    let after_sections = HELP_LIMITS@ + (nl + charsets_tail);
    assert(help_detail_spec(true) =~= colorize_spec(HELP_OPTIONS@) + (colorize_spec(
        HELP_RUNTIME_KEYS@,
    ) + (colorize_spec(HELP_ENVIRONMENT@) + (colorize_spec(HELP_VALUE_LISTS@)
        + after_sections))));
    lemma_colorize_strips_to_text(
        HELP_OPTIONS@,
        colorize_spec(HELP_RUNTIME_KEYS@) + (colorize_spec(HELP_ENVIRONMENT@) + (colorize_spec(
            HELP_VALUE_LISTS@,
        ) + after_sections)),
    );
    lemma_colorize_strips_to_text(
        HELP_RUNTIME_KEYS@,
        colorize_spec(HELP_ENVIRONMENT@) + (colorize_spec(HELP_VALUE_LISTS@) + after_sections),
    );
    lemma_colorize_strips_to_text(
        HELP_ENVIRONMENT@,
        colorize_spec(HELP_VALUE_LISTS@) + after_sections,
    );
    lemma_colorize_strips_to_text(HELP_VALUE_LISTS@, after_sections);
    lemma_strip_plain(HELP_LIMITS@, nl + charsets_tail);
    lemma_strip_plain(nl, charsets_tail);
    lemma_lists_strip_to_plain(nl + colors_tail);
    lemma_strip_plain(nl, colors_tail);
    lemma_lists_strip_to_plain(Seq::empty());
    assert(colors_tail + Seq::<char>::empty() =~= colors_tail);
    assert(list_colors_spec(false) + strip_sgr(Seq::<char>::empty()) =~= list_colors_spec(false));
    assert(help_detail_spec(false) =~= HELP_OPTIONS@ + (HELP_RUNTIME_KEYS@ + (HELP_ENVIRONMENT@ + (
    HELP_VALUE_LISTS@ + (HELP_LIMITS@ + (nl + (list_charsets_spec(false) + (nl
        + list_colors_spec(false)))))))));
}

} // verus!
