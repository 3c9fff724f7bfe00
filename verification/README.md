# Input Mode Viewer

An overlay for Windows that shows the current IME input mode (Hiragana,
Katakana, alphanumeric, Korean, Chinese modes, keyboard layouts) next to the
mouse or at a fixed place on the screen, only while the focused control takes
text and the process filter allows it.

The decisions are a library verified with Verus (`src/`):

- `text`, `japanese`: reading the mode from the taskbar indicator's glyph,
  and the text drawn for it.
- `capability`, `japanese_flow`: whether the focused control takes text, and
  the flow from readings to what the overlay shows.
- `display`, `show_state`: whether the overlay is shown, which opacity
  animation runs, and what a settings change asks of the process.
- `process`, `common`: process names, the filter lists and the settings model.
- `layout`, `tracking`, `render`: where the overlay goes, when the position
  thread follows the mouse, and the swap chain's bookkeeping.
- `window_style`: the overlay window's style bits.
- `events`, `taskbar`, `privilege`, `icon`: hook filters, the tray, the
  settings watcher and saver, the taskbar search, start-up and elevation, and
  PNG icon decoding.

`app/` is the Windows program around it: hooks, UI Automation, the process
snapshot, the Task Scheduler, the renderer and the event loop.
