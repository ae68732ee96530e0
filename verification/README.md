# xmas_rattler

The Christmas rattlesnake: a PIR sensor notices a visitor, an HC-SR04 measures the
distance, an LM1602 display shows it, and a light strand on a solid state relay flashes
faster the closer the visitor gets, while the board's RGB LED cycles through the rainbow.

- `src/` is the verified library (Verus). Hardware work is described, not performed:
  the LCD driver returns the I2C writes and waits that carry out each operation
  (`bus::BusOp`), the rattle controller returns the level to drive the relay to, and the
  colour cycle returns the pixel to send. The contracts state these exactly, and the
  proofs show what the display controller latches from them (`bus::received`).
- `app/` is the ESP32-C3 firmware around it: peripherals, the main loop, the interrupt
  handler, and the functions that run bus operations and drive pins.
- `tests/` exercises the library on concrete values.
