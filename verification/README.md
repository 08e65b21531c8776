# linux_platform

The Linux side of a remote desktop service.

- `src/` is the verified library. It decides what the service does: which server
  process is kept running for which desktop session (`service`, with its
  properties in `supervision` and `pass`), how cursor images are sent (`cursor`),
  how the reports of `xrandr`, `ps` and others are read (`display`, `process`,
  `environment`, `audio`, `desktop`), and which commands and arguments are handed
  to the system. `pattern` and `text` hold the calls into the crate `regex` and
  the standard library that the proofs rely on, with what is taken for granted of
  each.
- `app/` performs the decisions: processes, files, X11, GTK and the sound server.
- `tests/` runs the library on concrete values.
