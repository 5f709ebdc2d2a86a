# floatbar

Verified decision logic for a small always-on-top usage bar that docks to the
right of the Codex desktop window on Windows.

- `src/` — the library, verified with Verus:
  - `opacity` — opacity percentage to layered-window alpha, with its laws
    (clamping, never invisible, monotonic).
  - `style` — extended-window-style updates (layered, no-activate,
    click-through) stated bit by bit, and the invariants that showing and
    resizing the bar re-establish.
  - `dock` — where the bar docks beside the Codex window and when it hides.
  - `codex` — recognising the Codex window from its process and title.
  - `layout` — initial bar size, page URL and placement style.
  - `text` — the character-level helpers (ASCII lower-casing, substring
    search) the matching is built on.
- `app/` — the Tauri and Win32 glue: window creation, the docking loop, the
  native calls, and the floating-point placement and geometry rounding.
- `tests/` — runtime tests of the library.
