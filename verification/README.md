# xlnc_apex_robot

Firmware of the XLNC APEX robot car (Raspberry Pi Pico 2 / RP2350, Embassy),
split into a verified decision library and the firmware around it.

- `src/` — the library, verified with Verus:
  - `network.rs`: the Wi-Fi echo server as a state machine (join, link, DHCP,
    accept, read, write back), with its laws as proof functions;
  - `buzzer.rs`: how a melody note is played (sound nine tenths, pause one tenth);
  - `motion.rs`: the motor and servo demonstration programs;
  - `path.rs`: choosing the closest path segment from distance keys.
- `app/` — the firmware: hardware setup, async tasks that perform the library's
  actions, and the floating-point geometry and pure-pursuit control.
- `tests/` — tests of the library.
