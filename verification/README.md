# ctviewer

Reads the game data of Chrono Trigger, from the SNES ROM image or the PC release's files or
`resources.bin` archive, and holds the game-state logic for viewing its scenes and worlds.

The library under `src/` is verified with Verus: the decoders of the data formats (pointer
tables, palettes, planar graphics, sprite headers, assemblies and animations, tile sets, maps,
text and the scrambled, compressed archive), the script operation decoder, emulated memory,
the party, input bindings, text box layout, the debug overlays and the choices that key presses,
clicks and ticks lead to. Each public function states what it returns in its contract; the
`law_*` proof functions state what holds across calls.

- `src/filesystem/`: the data formats and the two data sources.
- `src/scene/`, `src/gamestate/`: scene scripts, actors, debug views and the scene and world
  states' decisions.
- `src/memory.rs`, `src/party.rs`, `src/input.rs`: game memory, party and input.
- `tests/`: tests on concrete values.
- `app/`: the command line front end, which does the file access and argument handling.
