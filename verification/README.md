# abyss

The rules of a deep-sea survival game, written in Verus and proved against
their contracts.

- `src/` is the verified library: resources and crafting recipes, equipment
  tiers and stations, the Ancient Altar's charge, creature loot, airlock
  cycling, oxygen tank slots, pressure zones, death and respawn bookkeeping,
  the swimming AI's state choice, particle budgets, light inventory
  bookkeeping and frame profiling windows. Each public function states what it
  returns; the `lemma_*` proof functions state the laws that hold across calls.
- `app/` holds what runs on floating-point values or outside crates (glam
  vectors, serde/bincode encoding, Perlin-noise trenches, rendering, audio,
  HUD), built on the library.
- `tests/` runs the library on concrete values.
