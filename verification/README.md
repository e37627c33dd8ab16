# flakeup

A small NixOS maintenance tool: it asks what to do, updates the flake's
inputs, rebuilds and switches the system, commits the flake repository and
pushes it.

- `src/` is the verified library (Verus). It holds the configuration and the
  questions that fill it in, the commands that are run, the staging and
  committing of the repository (through `git2`), and what each outcome means.
- `app/` is the program around it: prompts, the terminal, environment
  variables, the file system and child processes.
- `tests/` exercises the library, including against a real git repository.
