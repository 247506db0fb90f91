# winit keyboard input, verified

The Windows keyboard handling of a windowing library, with its error types, written in
Verus. The library decides; the caller reads the system.

- `src/error.rs`: `NotSupportedError`, `OsError`, `ExternalError` and the text each displays.
- `src/event.rs`: `ModifiersState` and `LogicalKey`, shared by all platforms.
- `src/platform_impl/windows/vkey.rs`: the virtual-key codes and the logical key of each.
- `src/platform_impl/windows/event.rs`: sided modifier flags and the AltGr filter, the
  modifiers from key states, key message parameters, the pressed keys, the characters a
  key types and the AltGr test of a layout.
- `app/`: the calls into the Windows API (through `winapi`) that read key states and the
  active layout, and the error types with `Display`, `Debug` and `Error`.
