# cosmostrix (verified core)

The command line and benchmark logic of the cosmostrix terminal renderer,
proved with Verus.

- `src/` is the verified library:
  - `colorize` colours the `--help-detail` reference line by line, with
    proofs that colouring is idempotent and works line by line;
  - `help` builds the `--list-charsets`, `--list-colors` and
    `--help-detail` texts and decides whether standard output is coloured;
  - `config` holds the background mode and `U16Range`, the `LOW,HIGH`
    ranges of the command line, with an exact parser;
  - `stats` sorts frame times and computes the percentiles and the jitter
    class with exact integer arithmetic;
  - `bench` runs the premium benchmark as a state machine fed with clock
    readings and frame results, and summarises a run;
  - `report` lays out the benchmark report, with the integer metrics in
    decimal;
  - `chars` holds the character-level helpers (trimming, `u16` decimals).
- `app/` is the program side: the `clap` command line, printing, and the
  benchmark drivers, which render through a `BenchHost`.
- `tests/` exercises the library on concrete values.
