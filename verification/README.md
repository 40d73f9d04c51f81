# re2line

The verified core of a speedrun analysis tool for Resident Evil 2 (1998, Sourcenext 1.1 PC).
Its functions carry contracts, and Verus proves that they meet them.

## Layout

- `src/` — the library:
  - `rng`, `roll_type`, `sim`: the game's random number generator, the cycle of its seeds (the
    generator permutes the 15-bit seeds, so the orbit of the initial seed closes without repeating
    a seed; its length, 24,312, is checked by the tests), the outcome of every known kind of roll,
    and the bus-room manipulation simulation.
  - `analysis`, `explore`: describing the rolls of a recording, the nearest different outcomes,
    the outcomes and their distribution around a roll, and windows of desired outcomes.
  - `record`, `codec`, `tracker`: the flight recorder's frame records, their byte format
    (reading gives back what was written), and the computation of each frame's changes.
  - `playback`, `compare`: stepping through a recording room by room, room statistics, the
    timeline of runs, and finding the runs that pass a room's checkpoints.
  - `collision`, `aot`, `rdt`, `world`, `room`: room geometry (the game's point-in-shape and
    motion-clipping tests), the AOTs (triggers) a room script sets, floors, object kinds and
    room names.
  - `state`: the whole state after each frame, with the characters and objects rebuilt from the
    frame's diffs, and what the weapon range display reads of it.
  - `character`: characters and pushable objects, and the push of one character out of
    another, pair of body parts by pair (the game's length, scaling and rotation routines
    are the caller's).
  - `math`, `game`, `hit`, `ai`, `animation`, `tas`, `version`, `text`: fixed-point values, game
    structures, weapon ranges, AI states, animation choice, the TAS controller's decisions,
    supported game versions, and text rendering.
- `tests/` — tests of the library on concrete values.
- `app/` — a small command-line front end (reading files, printing, floating-point time display).
