# smart_car

Verified core of a two-board remote-controlled car: an ESP32 handheld remote
sends joystick and button state over an nRF24L01 link at 100 Hz; an RP2040 car
drives two L298N bridges (left and right side) from it and stops on its own
when the link goes quiet.

- `src/` — the library, verified with Verus: CRC-16/CCITT-FALSE and its
  burst-detection property (`crc`), the packet format (`protocol`), payload
  checks (`radio`), arcade mixing (`control`), motor scaling (`motors`), the
  car's failsafe loop (`car`), the remote's input handling (`keypad`) and
  status screen text (`display`).
- `app/` — firmware glue: pins, PWM, radio, display, timing loops.
- `tests/` — executable tests of the library.
