# github-notifier-ws

A tray utility that turns GitHub notifications into desktop toasts, filtered
by rules written in a YAML file (first matching rule wins). This crate holds
its logic as a Verus-verified library; `app/` wires it to Tauri, the GitHub
REST API, the OS keyring, the file system and the Windows toast API.

## Layout

| module | what it holds |
|--------|---------------|
| `src/config.rs`  | configuration schema, defaults, the mute rule, reload with last-good fallback |
| `src/rules.rs`   | the four condition axes and first-match-wins, with their laws |
| `src/github.rs`  | notification types, thread ids, browser and API URLs |
| `src/poll.rs`    | reading a poll response, state between polls, what each notification leads to |
| `src/notify.rs`  | XML escaping, labels, line numbers in parser messages, the toast documents |
| `src/actions.rs` | reading `github-notifier-ws://` deep links and deciding what they ask for |
| `src/tray.rs`    | menu texts, menu commands, the snooze until morning, tooltips |
| `src/text.rs`, `src/decimal.rs` | character-level text operations and decimal numerals |
| `app/`           | the program: Tauri setup, HTTP, keyring, YAML files, file watching, toasts |
