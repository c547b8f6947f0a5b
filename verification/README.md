# flipperzero

Safe bindings for the Flipper Zero firmware, with their logic proved by
Verus.

- `src/` is the verified library: the raw firmware values and their typed
  counterparts (`sys`, `canvas`, `gui_layer`, `input`, `view_port`,
  `view_dispatcher_type`), bitfield storage (`bitfield`), file errors and
  paths (`io`, `path`), the GUI objects (`view`, `view_dispatcher`,
  `submenu`, `variable_item_list`), Bluetooth (`bluetooth`), and a model of
  the firmware services those objects drive (`firmware`). Each public
  function states its behaviour in `requires`/`ensures`; the laws that
  relate several functions are public proof functions named `law_*`.
- `tests/` runs the library on concrete values.
- `app/` is the unverified rim: spin locks and event flags on atomics, the
  service threads, std I/O, and the calls into the firmware's C API.
