# dragonfruitvoid

A practice game for the Harvest Temple raid encounter, written with bevy.

- `src/` is the verified library (Verus): the phase order and menu states,
  the menus and their buttons, hint schedules, the countdowns that script
  every mechanic (on top of bevy's `Timer::tick`), the player's cooldowns and
  skills, the sound table, the asset lists, and the decisions of the
  computer-controlled squad. Each public function carries a contract, and
  the laws the game relies on are stated as proof functions.
- `tests/` runs the library on concrete values.
- `app/` is the bevy application: systems, rendering, input, and the
  floating-point geometry of movement and collisions. It calls the library
  for every decision that does not depend on floating point.
