# rmk-driver-azoteq-iqs5xx

Driver for the Azoteq IQS5xx (TPS65) trackpad, for the RMK keyboard firmware,
with its logic stated in contracts and proved.

- `src/` is the verified library: register frames and big-endian decoding
  (`bytes`, `driver`), the report block (`report`), gesture classification
  (`event`), the power-up sequence and the ready-pin wait (`driver`), how a
  planned sequence of steps reacts to a failed step (`run`), the
  polling device and the mouse-report processor (`rmk_support`), and the scan
  of BLE advertising data for the peripheral half (`adv`).
- `app/` drives the hardware: the async I2C bus, the ready and reset pins and
  the timer, and the RMK `InputDevice` / `InputProcessor` glue. It carries out
  the steps the library plans and feeds the answers back.
- `tests/` runs the library on concrete values.
