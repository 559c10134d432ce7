# git-pilot

A terminal user interface for working with the Git repositories found under
the current directory: staging, committing, branches, pull requests, and
commit messages written by GitHub Copilot.

The crate is a library verified with Verus, and a thin application around it.

- `src/` holds the verified library. Every function states its behaviour in
  `requires`/`ensures` clauses over mathematical models (`Seq`, `Multiset`,
  spec functions), and the properties that relate several functions are
  proved as `pub proof fn` lemmas.
  - `text`, `order`, `sort`, `search`: text, ordering and sorting helpers.
  - `commit`, `domain`, `status`, `git`, `discovery`: commit messages,
    repositories, `git status`/`git branch` output, `git` arguments, and the
    listing order of discovered repositories.
  - `settings`: the layered settings (defaults, user, team, personal).
  - `text_input`: a single-line editor with a cursor.
  - `state`, `actions`, `controller`, `mouse`, `suggestions`, `presentation`:
    the application state, the key and mouse maps, what every action does and
    which outside work it asks for, and what the screen shows.
  - `copilot`, `auth`: the diff context and prompts sent to Copilot, the
    reading of its replies, the sign-in flow and token refresh decisions.
- `app/` holds the terminal, the event loop, the `git` and `gh` processes,
  HTTP calls, the settings files and the drawing; it performs the outside work
  the library asks for and hands the outcomes back to it.
- `tests/` exercises the library on concrete values.
