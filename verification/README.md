# babello

A command-line and terminal client for the DeepL translation and
text-improvement service, written in Verus.

- `src/` is the verified library:
  - `text.rs`: lines, substring search, replacement, ordering of texts and
    decimal notation, each with a model over `Seq<char>`;
  - `languages.rs`: the table of languages (a map keyed by code), the codes
    the improvement service accepts, and the sorted language lists;
  - `hook.rs`: the git commit-msg hook script and its rendering;
  - `cli.rs`: the checks on the command-line options and the action they
    select;
  - `deepl.rs`: the requests sent to the service and the reports printed
    from its answers;
  - `screen.rs`: how the terminal screen is divided;
  - `tui.rs`: the interactive editor as a state machine, its model, and the
    laws that the model satisfies.
- `app/` holds the program: argument parsing, HTTP, JSON, the terminal and
  the worker thread. It hands plain values to the library and acts on what
  the library returns.
- `tests/` exercises the library on concrete values.
