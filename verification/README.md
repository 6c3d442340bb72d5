# prayer-times

Verified core of a program that computes Islamic prayer times and sends
desktop notifications.

- `src/` is the library, checked by Verus: the order of the day's events,
  the merging of command-line options with the configuration file, the
  choice of the location source, the calendar (Julian day numbers and day
  shifts through chrono), the time-zone offset (through chrono-tz), the
  choice of the public IP address, and the text shown to the user.
- `app/` holds what Verus does not check: the floating-point astronomy,
  reading the configuration file, the network lookups, the clock and the
  notifications. It calls the library for every decision.
- `tests/` exercises the library on concrete values.
