# ntfy_sender

A CO2 monitoring dashboard for a Raspberry Pi: a sensor posts readings, the
dashboard charts them, and threshold crossings or a silent sensor are
announced through an ntfy server.

- `src/` is the verified library: reading classification against the warn and
  danger thresholds (`models`, on binary64 bit patterns compared as `level`
  does), the notification rules and the offline watchdog as a state machine
  (`notifier`), message preparation (`ntfy`), the loopback guard (`auth`),
  the handlers' decisions (`handlers`) and start-up configuration (`config`).
- `app/` is the service around it: axum routes, sqlx storage, reqwest
  delivery, minijinja pages, and the conversions between `f64` values and
  the library's bit patterns. It reads its page templates from `templates/`
  and its schema migrations from `migrations/` at start-up.
- `tests/` exercises the library on concrete values.
