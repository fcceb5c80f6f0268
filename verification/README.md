# jolt

A terminal battery and energy monitor for macOS and Linux, with its logic verified by
Verus.

## Layout

- `src/` — the verified library. Each function carries a `requires`/`ensures` contract
  over spec functions and views; the laws that relate several functions are public proof
  functions next to them.
  - `app`, `input` — the interface's state machine: what every action and key does.
  - `processes`, `sorting` — process-name grouping, merging, ordering and the visible rows.
  - `pmset_parse`, `battery_parse`, `sysfs`, `smc`, `platform` — reading battery and power
    reports and values.
  - `data`, `protocol`, `daemon` — readings, history buffers, stored codes and the daemon's
    requests.
  - `theme`, `builtin_themes`, `iterm2`, `config` — colors, theme files, scheme variants,
    settings and paths.
  - `ui_format`, `ui_utils`, `ui_panels`, `ui_widgets` — the texts, sizes and cells the
    screen shows.
  - `text`, `text_parse` — string searching, trimming, line splitting and number parsing.
- `tests/` — tests of the library on concrete values.
- `app/` — the program: terminal, clap commands, process and file I/O, network fetches,
  drawing with ratatui, and the floating-point readings and estimates.
