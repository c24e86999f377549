# lle_simulator

Interactive simulator of two coupled Lugiato-Lefever resonators. The verified library
(`src/`) holds the logic that does not compute in floating point, with Verus contracts:

- `property`: the simulation parameters and how recording a change says which part of
  the numerical core must be rebuilt;
- `gui`: the fixed order of the control panel, the messages of the user interface, and
  the slider bounds of the panel (`gui::panel`);
- `session`: how the window reacts to each message (run/pause, frame pacing, slider
  bounds);
- `chart`: the status window layout, the ordering of the drawn spectrum, and the colour
  map bitmap lent to a drawing thread;
- `laws`: proof functions relating these operations.

Real-valued parameters cross into the library as `f64` bit patterns. `app/` holds the
program: the numerical solver, random seeding, plotting, the window and the iced GUI.
