# keyboard_splitter

Turns several physical keyboards into independent virtual Xbox 360
controllers, one per player, so local-multiplayer games can be played with
one keyboard per person.

## Layout

- `src/` - the verified library (Verus):
  - `model` - the data model shared with the user interface, and key names
    (`model::keys`);
  - `controller` - controller reports: button bits, accumulation of bound
    targets, clamping; the `VirtualController` trait the driver backend
    implements;
  - `mapping` - the report of one player from its bindings and held keys;
  - `presets` - the built-in starter layouts;
  - `input` - keyboard detection (`devices`) and raw key packet decoding
    (`capture`);
  - `engine` - the engine state and every transition of it: players,
    bindings, keyboard assignment, re-plugged keyboards, profiles, key
    events and virtual controllers;
  - `profiles` - profile file names and the profile list;
  - `crash` - the text of crash reports;
  - `text` - verified string helpers.
- `tests/` - tests of the library.
- `app/` - the desktop application around the library: Tauri wiring, IPC
  commands, the engine thread, Windows Raw Input capture, the ViGEm driver
  backend, JSON profiles and crash logging.
