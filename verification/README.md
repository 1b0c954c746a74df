# gmux

A terminal Git workflow tool for multi-environment branch sync, batch merges
and GitLab merge requests, with its logic verified by Verus.

## Layout

- `src/` — the verified library:
  - `config.rs`: the configuration (project roots, environment branches, the
    branch map), its validation, and every change the settings pages make;
  - `project.rs`: scanning project roots and the branch runs (sync, merge) as
    step machines fed with Git's replies;
  - `git.rs`, `gitlab.rs`: the Git commands and GitLab API requests, and how
    their output is read;
  - `workflow.rs`, `navigation.rs`, `menus.rs`: the pages, what each key or
    choice does to the page stack, and what every menu shows;
  - `tui/`: the menu, checklist, text input and folder browser states;
  - `text.rs`, `order.rs`: strings and orderings the rest is stated over.
- `app/` — the program around it: the terminal, processes, HTTP, files.
- `tests/` — tests of the library on concrete values.

The configuration lives in `~/.config/gmux/gmux.toml`.
