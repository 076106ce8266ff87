# pico2hubris

Hubris tasks for the Raspberry Pi Pico 2 (RP2350), split in two:

- `src/` — the verified library (Verus): decimal rendering of the uptime
  (`decimal`, `uptime`), the ping counter and its IPC message (`ping`), the
  blink request parser and blink sequence of the LED server (`pong`), the
  heartbeat and PWM-fade schedules (`heartbeat`, `fade`), the LED pin mask
  (`board`) and the busy-wait delay (`spin`).
- `app/` — the task bodies: peripheral register access through `rp235x-pac`,
  kernel syscalls through Hubris `userlib`, and the loops that perform what
  the library decides.
