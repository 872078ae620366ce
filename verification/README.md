# ascii_deck

The logic of a COSMIC panel applet that shows the battery and the screen
brightness as ASCII bars, verified with Verus.

- `src/` is the verified library: the settings model (`config`), the
  message-driven state machine (`applet`: `step` is its specification,
  `BatteryApplet::update` its implementation), the panel texts (`panel`), the
  popup pages (`deck`, `popup`), the decisions taken on readings from the
  system (`host`: battery state, sysfs numbers, logind session, settings
  directory) and the properties that span several calls (`laws`).
- `app/` is the program around it: widgets, timers, files, the battery crate,
  D-Bus, and the floating-point rounding that the panel uses.
- `tests/` runs the library on concrete values.
