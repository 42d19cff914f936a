# forza_dualsense_core

Adaptive-trigger feedback for a DualSense controller, driven by Forza Horizon's "Data Out"
UDP telemetry.

- `src/` is the verified library:
  - `telemetry` reads a 324-byte telemetry packet into the fields the logic uses;
  - `effects` turns a telemetry frame and the effect settings into the two trigger modes,
    keeping timed effects (gear-shift kick, ABS pulse, rev limiter, wheelspin) and the
    pedal-wall hysteresis between frames;
  - `trigger_builders` builds trigger modes, including the ten-zone encoding;
  - `controller` lays trigger modes out in USB and Bluetooth output reports (the latter
    with a CRC-32 from `crc32fast`) and holds the device-discovery decisions;
  - `logic` is one pass of the engine loop; `utils` holds the strength scale and the wall
    hysteresis.
- `app/` is the program around it: configuration file (serde/toml), UDP socket, HID device
  (hidapi), the engine loop and the floating-point measurements (pedal curves, speed, slip,
  rpm, surface) that become a telemetry frame. `manual-tester` as first argument runs the
  interactive telemetry sender.
