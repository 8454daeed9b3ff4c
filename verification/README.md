# ostep

A test harness for the exercises of _Operating Systems: Three Easy Pieces_, and the first of its utilities, `wcat`.

- `src/` is the library: everything that is decided or computed, with contracts that Verus proves.
- `app/` is the programs around it: they run commands, read files and write to the terminal.
- `tests/` runs the library on concrete values.

## What a test is

The files of a test are in the `tests` directory of the package under test. They are named by the number of the test, and
their extension tells what they hold:

| Extension | Holds                                        |
|-----------|----------------------------------------------|
| `run`     | the command, whose first word is the program |
| `out`     | what the program should write                |
| `err`     | what it should write as errors               |
| `rc`      | the return code that it should end with      |
| `desc`    | a description                                |
| `pre`     | what comes before                            |
| `post`    | what comes after                             |

The harness does not yet put the files of a test together: it makes a test of every file by itself. Running a test takes
the command, both outputs and the return code, so a suite that has any files fails before its first program is run.

## What is taken for granted

The functions of other crates and of the standard library that the verified code calls are in `src/outside.rs` and at the
top of `src/text.rs`, each with what is taken for granted of it.
