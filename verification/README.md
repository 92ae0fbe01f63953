# Shanka

Shanka rewrites the text selected in any desktop application on a global
hotkey: Safe Mode shows an editable preview of the rewrite, Magic Mode replaces
the selection directly.

This crate holds the app's logic as a library verified with Verus:

- `persona`, `persona_laws`: the persona catalog, normalization of the user's
  persona configuration, the choice of a persona, and the properties every
  normalized configuration has.
- `config`: hotkeys, provider settings, defaults and what a loaded file becomes.
- `hotkey`: routing hotkey events and deciding whether a press starts a capture.
- `clipboard`: the clipboard capture as a state machine, and how each clipboard
  read is judged.
- `selection`, `rewrite`, `pipeline`: reading the selection, talking to the
  provider (every decision around an HTTP call), the Safe Mode preview store,
  undo and delivery of a replacement.
- `history`, `hud`, `window`, `tray`, `autostart`, `keychain`, `platform`,
  `keys`, `text`: the remaining pieces of logic and the text helpers they share.

`app/` is the desktop program around the library: the Tauri commands, windows,
tray, files, clipboard, keyboard simulation, global hotkey registration and
HTTP calls. It hands the library plain values and acts on what it returns.
