# dirty_way

Gameplay rules of a side-view defence game in which a soap dispenser sprays
foam at dirt that walks in from both edges of the floor.

- `src/` — the verified library (Verus): GPU foam slot bookkeeping and the
  live-bubble cap (`bubble`), enemy stats and contact damage (`enemy`), round
  state and the high score (`state`), input action tables (`actions`), foam
  quality budgets (`quality`), collision layers (`layers`), the UI screen
  stack (`gutz_ui`), game screens and HUD texts (`ui`), and the integer side
  of the foam renderer (`soap`).
- `tests/` — tests of the library on concrete values.
- `app/` — the Bevy / Avian2D program around the library: physics, drawing,
  floating-point motion, input devices and the save file.
