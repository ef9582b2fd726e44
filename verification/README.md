# collab_titlebar

The collaboration part of an editor window's title bar: the title of the project, the people
in a call, and the controls for the call, the contacts and the account.

- `src/` decides what the title bar shows and does. It takes a snapshot of the application as
  plain values and returns a description of the bar, or a list of effects. Every function in
  it has a contract that Verus proves, and `src/laws.rs` states properties that hold across
  them.
- `tests/` runs the library on concrete values.
- `app/` is the view: it gathers the snapshot, draws the description with the editor's user
  interface toolkit, and performs the effects. It is built inside the editor's workspace,
  which provides the toolkit and the models.
