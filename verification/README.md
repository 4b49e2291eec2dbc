# madura_javac

The verified core of `madura`, a drop-in `javac` whose compiler lives in a
native image entered through an isolate.

- `src/` (Verus): argument marshalling into C strings (`marshal`), the
  `check` / `compile` subcommands (`command`), the binary-relative dist root
  and its platform image (`home`), the decisions of an invocation and the call
  it assembles (`invoke`), the process-wide isolate as a state machine
  (`isolate`), the error type with its exit codes and messages (`error`), and the text
  helpers those messages use (`text`).
- `app/`: the `madura` binary. It reads the command line and the executable
  path, probes the file system, holds the isolate state behind a lock, makes
  the FFI calls the library asks for, and prints errors.
- `tests/`: tests of the library.
