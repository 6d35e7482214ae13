# medic

Medic runs the development workflow of a project: the checks of `medic
doctor`, the tests, audits, updates and releases, each described in a TOML
manifest, with remedies offered when a check fails.

This crate holds medic's logic as a library whose behaviour is stated in
`requires` / `ensures` contracts and proved with Verus:

- `check`, `shell`, `step`, `outdated`, `outdated_check`: the kinds of
  checks and steps, the commands they run (`extra::command::CommandSpec`),
  how they are shown, and the outcome of running them.
- `recoverable`, `app_result`, `runnable`, `workflow`: outcomes, what `?`
  does with them, and the decisions taken after a step ran or the user
  answered a question.
- `outdated::summary`, `outdated::table`, `elixir::deps`: the text formats
  that outdated checks and `mix deps` print, read and written.
- `config`, `extra::env`: the manifest and the user's configuration, and
  the expansion of `${NAME}` variables.
- `elixir`, `git`, `github`, `cargo_step`, `medic_step`: the step programs.

`app/` is the part that touches the outside world: reading files and the
environment, running processes, progress bars, prompts, and the command
lines; it hands plain values to the library and acts on what it returns.
`tests/` exercises the library on concrete values.
