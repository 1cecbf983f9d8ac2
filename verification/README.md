# Gosh Distrobox Manager

A desktop manager for distrobox containers. The crate is split in two:

- `src/` is the verified library. It holds the application's state (`Shell`)
  and every decision the window makes: which page and screen show, what a
  message does to the state, which backend work to start (`Effect`), what
  the confirm dialogs say, how tasks are mirrored, filtered and counted, and
  the copy each state gets (`Msg`). Every function carries a contract that
  Verus proves; `laws.rs` states the properties that span several calls
  (a second press is ignored while an action runs, stale replies are
  dropped, a finished task releases its keys, confirming runs exactly the
  confirmed action, and so on).
- `app/` is the COSMIC application around it: the widgets, the nav bar,
  the toaster, the settings store, the localisation catalogue and the calls
  into the distrobox backend. It hands each message to `Shell::update`,
  performs the effects that come back, and feeds their answers in as new
  messages.

Layout of `src/`: `model` (containers, tasks, configuration), `msg` (the
user-facing copy as values), `message` (the messages), `shell*` and
`dispatch` (the state and its update), `page_state`, `shell_view` and
`views` (what each page shows), `tasks`, `activity`, `wizard`, `packages`,
`backups`, `terminal`, `updates`, `apps_view`, `icons`, `prefs` (the
fold of the stored keys into preferences), `text` (string helpers),
`laws`.
