# cyber_tui

A terminal client for cyberspace.online, whose core is verified with Verus.

- `src/` is the verified library: text utilities (`text`), the service's data
  (`models`), the session file's location (`session`), the requests of each
  operation (`api`), text fields (`input`), the client's state and navigation
  (`app`), how answers of the service drive it (`flow`), how keys drive it
  (`keys`), what each screen shows (`view`), where it goes on the terminal
  (`layout`), and properties across these (`laws`).
- `app/` is the program around it: the terminal, the HTTP client, the session
  file and the painting of the screens.
- `tests/` runs the library on concrete values.
