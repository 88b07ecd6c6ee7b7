# condor

The command-line layer of the Condor chunked video encoding framework, as a
verified library. Verus proves the functions under `src/` against their
contracts, except four small trusted wrappers around standard-library and
`path_abs` calls (`text::push_char`, `hash_path::hash_path_into`,
`input_model::path_extension`, `input_model::absolute_path`), whose contracts
are assumed; each says in its documentation what it claims.

- `src/` — the library: encoder parameter parsing (`parameter_parser`,
  `float_text`), the option vocabularies (`commands`), input descriptions
  (`input_model`), speed/quantizer tables (`speed_pairs`), scene lengths
  (`scene_lengths`), progress bookkeeping (`shared_progress`, `benchmarker`,
  `parallel_encoder`, `target_quality`), run decisions (`workflow`) and text
  formatting (`time_display`, `hash_path`, `help_text`, `text`).
- `tests/` — tests of the library on concrete values.
- `app/` — the program around it: command-line parsing, configuration files,
  and the calls into the encoding framework.
