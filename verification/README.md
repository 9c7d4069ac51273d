# deskvolt

Battery status of wireless mice, headsets and game controllers, read
straight from their HID reports, with every decoder, the settings file
and the widget's and tray icon's content proved correct by Verus.

- `src/` is the verified library:
  - `devices/` holds one module per device family (Logitech mice and
    headsets, SteelSeries, Corsair, HyperX, PlayStation): the requests to
    write, how each reply changes the battery reading, and which enumerated
    HID interfaces to try, in order.
  - `config.rs` reads and writes the `key=value` settings file; a saved
    configuration provably loads back unchanged.
  - `device.rs` holds the `Device` trait and the registry the poller keeps.
  - `tray.rs`, `ui.rs`, `log.rs`, `session.rs`: tooltip text, icon pixels,
    menu actions and the tray's start state, window placement, the drawing
    plan and row layout, the widget's drag-and-message handling, log lines
    and main-loop decisions.
  - `worker.rs`: when the background poller discovers, polls, pauses and
    stops.
- `app/` is the Windows program around it: HID input and output through
  `hidapi`, the window, the tray icon and the files.
- `tests/` runs the library on concrete inputs.
