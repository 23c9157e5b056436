# legion_rgb

A four-zone RGB keyboard controller for Lenovo Legion, LOQ and Ideapad
laptops, with its decision logic verified by Verus.

* `src/` — the verified library: the driver's lighting state and HID
  reports, the refresh and handshake sequences and device selection
  (`driver`), effects and profiles (`enums`, `profile`, `persist`), the
  effect manager's decisions (`manager`), the whole-number parts of the
  effects (`effects`), the stealth controller's zone model, packets and
  labels (`stealth`), and string helpers (`text`).
* `app/` — the program around it: HID I/O, threads and channels, the
  settings file, and the floating-point animations.
* `tests/` — tests of the library on concrete values.
