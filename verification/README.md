# tetris_clone

A falling-block game whose rules live in a library verified with Verus, and a thin
bevy front end around it.

- `src/pieces.rs`: grid vectors, the seven shapes, orientations and their rotations, the
  table of brick offsets, and spawning a tetromino.
- `src/grid.rs`: the brick grid, whether a tetromino fits, placing it and taking out the
  rows it completes, listing the bricks at rest.
- `src/grid_laws.rs`: what placing does to completed rows, and facts about fitting.
- `src/game.rs`: the falling tetromino (moves, gravity, a frame of input with hard drop)
  and the scoreboard.
- `src/input.rs`: the logical inputs read from the keys.
- `src/random.rs`: the random number generator, behind trusted wrappers of `rand` and
  `rand_chacha`.
- `app/`: the bevy program (drawing, timers, keyboard, events), which calls the library.
- `tests/`: tests of the library on concrete values.
