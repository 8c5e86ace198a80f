# iced_tray

A declarative system tray, verified with Verus.

- `src/tray/` – tray identifiers, menus (`menu`), settings and events.
- `src/id_source.rs` – the source of fresh identifiers for trays and menu items.
- `src/runtime.rs` – the actions a program asks of its trays, and the filter
  that picks tray events out of the application's events.
- `src/manager.rs` – the manager that keeps the trays in an `FxHashMap` and
  applies actions to them; `next_trays` states what each action does, and the
  `lemma_*` proof functions state the laws that follow.
- `app/` – the channel that reports a created tray's identifier back.
