# i3bar

A status line generator for i3bar. It reads i3status, the music player,
sysfs and the clock, dresses each value with a symbol, and writes the
i3bar protocol on standard output.

- `src/` is the library, verified with Verus: the protocol state machines
  and line framing (`codec`, `i3status::codec`), the controller that
  decides which blocks are shown and in which order (`controller`), and the
  block makers of each source (`i3status`, `media`, `systeminfo`, `time`,
  `timer`, `backlight`, `battery`, `stdin`, `sysfs`), with the text helpers
  they are built on (`text`, `icon`, `buffer`).
- `app/` is the program around it: the reactor, the processes, files and
  sockets it reads, JSON (de)serialization, and the battery's time-left
  estimate, which is floating-point arithmetic.
- `tests/` runs the library on concrete values.
