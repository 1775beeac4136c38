# rugit

The core of a terminal interface for Git, verified with Verus.

- `src/` is the library. Each view (`tui_module::{branch_view, commit_view,
  log_view, status_view, views::status_view}`, `help_view`) is a state machine:
  a key changes the view, appends messages, and names the Git operation to run;
  the view also says what it shows (`panel`). `app` ties the views together.
  `git_utils` holds the Git operations, each a machine that takes the reply to
  one repository call and decides the next call or the result. `laws` and
  `git_laws` state and prove properties that hold across keys and calls.
- `app/` is the front end: it reads keys with crossterm, makes the repository
  calls with git2, and draws the panels with tui.
- `tests/` runs the library on concrete values.
