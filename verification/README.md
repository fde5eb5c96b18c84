# lamp_timer

Firmware logic for an ESP32-S3 lamp timer: a table lamp follows a daily
on/off window against a clock set on a 480x320 touchscreen, with a manual
override button. The same board once ran a countdown timer and a payment
terminal client; that logic is kept too.

- `src/` — the library, verified with Verus: the schedule and override
  (`schedule`), the countdown (`timer`), the time-entry editor (`editor`),
  the clock's trust flag (`clock`), stored settings (`store`), the main
  loop's decisions (`control`), the screens and framebuffer (`display`),
  the button grid (`ui`) and the lamp screens' buttons (`layout`), touch arithmetic (`touch`), the relay state
  (`relay`), and the backend client (`api`, `types`).
- `app/` — the ESP-IDF program around it: SPI panel driver, ADC touch
  reads, relay pin, NVS store, HTTP client, Wi-Fi, and the main loop.
- `tests/` — tests of the library on concrete values.
