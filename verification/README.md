# uu_diff

Option handling and run control of the `diff` utility, with the contracts of
its functions proved.

- `src/` is the verified library:
  - `options`: the ids of the command-line options;
  - `format`: the output formats and their option names;
  - `args`: the parsed command line as plain values;
  - `params`: the settings of a run and their derivation from the command
    line (`Params::try_from`), with the order of its checks;
  - `prepare`: the rewriting of GNU-style numeric context options
    (`-c42` to `-c=42`) before argument parsing;
  - `compare`: the steps of a comparison run and its exit status;
  - `errors`: the errors, their exit codes and message ids;
  - `number`, `text`: std's integer parsing and string equality, as the
    library relies on them.
- `app/` is the program around it: clap's command description, reading files
  and standard input, localized messages and the exit code. It hands the
  inputs to the diff engines of the five formats (`normal_diff`,
  `unified_diff`, `context_diff`, `ed_diff`, `side_diff`), which are separate
  modules not included here.
- `tests/` runs the library on concrete command lines and runs.
