# atomcode-switch

A desktop tool that keeps several AtomCode logins and switches between them:
it records the current `auth.toml` as an account, writes a chosen account back,
shows each account's plan, remaining days, usage and reset time, and can switch
automatically to the account with the lowest usage once the active one passes a
threshold.

## Layout

- `src/` is the library, verified with Verus. Each public function states what it
  returns or changes in its `ensures`; the `law_*` proof functions state what holds
  across calls (the persisted language name reads back as the language, a switch
  makes the chosen account active, a deletion keeps the other accounts in order,
  the automatic switch picks the eligible account of lowest usage, a reset time
  lies ahead of the moment it was computed from, ...).
  - `text.rs`: trimming, searching and replacing on character sequences.
  - `models.rs`: accounts and the configuration, with their mathematical views.
  - `lang.rs`, `en_us.rs`, `zh_cn.rs`, `i18n.rs`: the two interface languages and
    placeholder substitution.
  - `datetime.rs`, `countdown.rs`: calendar arithmetic, minute stamps and the
    countdown to a reset.
  - `login.rs`: reading plan, days, usage and reset time out of the output of
    `atomcode login`.
  - `account_ops.rs`, `ui_state.rs`: the state of the window and every operation on it.
  - `paths.rs`: where the data directory and its files lie, and the migration of an
    older layout.
  - `theme.rs`: the colour that a usage level is shown in.
- `app/` is the program around it: the window (eframe), file and dialog I/O,
  serialisation (serde, YAML, TOML) and the clock.
- `tests/` runs the library on concrete values.
