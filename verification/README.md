# word_highlight_assistant

A desktop helper that watches the mouse, reads the text selected in any
application after a mouse button is released (through the clipboard and a
simulated Ctrl+C, putting the clipboard back afterwards), and shows it in a
small toolbar window placed beside the cursor.

- `src/` is the verified library (Verus): the mouse listener's decisions
  (`listener`), the popup steps after a release (`popup`), the capture of the
  selection (`selection`), the toolbar placement over the monitors
  (`placement`), white-space trimming (`text`), the front-end commands'
  decisions (`commands`) and the log entries (`logger`).
- `app/` is the Tauri application around it: the global mouse hook, the
  clipboard, the simulated keyboard, the windows and the printing. It performs
  the actions the library decides.
- `tests/` runs the library on concrete values.
