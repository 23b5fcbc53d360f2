# dune

Game logic of a Dune strategy-game engine, written in Verus: the troop
simulation (movement, arrival, occupations, spice mining), the travel map
and the flight over the planet, the troop icons of the full map, the map's
menus, panels and popup effects, the talking-head zoom sequencer, the HUD
head fold animation and the Creative Voice File reader.

Each function states its behaviour in `requires` / `ensures` over spec
functions and is proved by Verus; where a function leaves part of a step to
the engine (a map lookup, a sound, a redraw), its doc comment says which. Drawing, sound, video and file access
belong to the engine around the library: the library's functions return
plain values (rects, frames, requests in `GameState::events`) that the
engine performs.

- `src/world.rs`, `src/game.rs`: the troop and location records and the
  game state.
- `src/troop_*.rs`: the troop simulation and the troop side of the map.
- `src/map_*.rs`, `src/compass.rs`: the map view, the flight and the map's
  screens.
- `src/voc.rs`, `src/zoom.rs`, `src/hud_head.rs`: voice files, the zoom
  sequencer and the HUD head.
- `src/laws.rs`: properties that span several functions.
- `tests/`: scenario tests run against the compiled library.

Verify with Verus on `src/lib.rs` (`--crate-type lib`).
