# bilibili-tui

A terminal client for Bilibili. The crate is a verified library with a thin
terminal program around it.

- `src/` holds the logic, proved with Verus: the requests the client plans
  for the web API, the forms it posts and how replies are read (`api`), credentials, keybindings,
  configuration and the files they live in (`storage`), the colour
  themes (`theme`), what each page of the
  interface does with keys, the mouse and the data it receives (`ui`), how the
  application moves between pages and what it asks to fetch, store or play
  (`app`), the player's arguments and watch reports (`player`), and
  the screen areas the layout solver computes (`layout`).
- `tests/` runs the library on concrete values.
- `app/` is the program: terminal events, HTTP, files, mpv and drawing. It
  hands the library plain values and carries out what the library asks for.
