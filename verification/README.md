# GliderRust

A bot for the 3.3.5a game client: it attaches to the game's process, reads a
snapshot of the player and the target from the game's memory on a schedule, and
steers along a route profile. The window is an embedded HTML front end that
invokes commands over IPC.

The library under `src/` is verified with Verus: every public function states
what it returns or changes, and the proof functions state laws of the library
as a whole.

- `config` — key bindings and their normalisation, application settings.
- `input` — input commands, their validation, a recording backend.
- `memory` — attachment to the game process (`reader`), reading a snapshot of
  the game through a memory-reading callback (`snapshot`), and the decisions in
  between: walking the object list and the name cache (`walk`) and faction
  standing (`faction`). Each value is read on one path, at its configured
  place. A link of the pointer chain that cannot be read fails the read at its
  address; any other value that cannot be read stays unknown. None is replaced
  by a read at another offset or by a made-up value.
- `bot` — the run state, the route position and the suggested inputs; `nav`
  orders `f32` bit patterns.
- `profile` — route profiles built from a profile file's fields.
- `service` — the application: controls, attachment, settings, and the
  memory-reading cycle with its counters.
- `command` — the commands the front end invokes, their arguments and errors.
- `ui` — the captions, colours and grouping that the views show.
- `format`, `text` — numerals and string handling with exact contracts.

`app/` holds what the library leaves to its caller: the window and event loop,
the IPC dispatch, the operating system's process and memory calls, reading
profile files, floating-point navigation, and the serializable copies of the
library's types. Floating-point values cross into the library as `f32` bit
patterns.
