# mywebnote

The core of the MyWebnote API server, verified with Verus.

- `src/` is the library: the configuration and its defaults, the in-memory and
  Redis string caches, the health report, the log settings, the records, and the
  authentication decisions (the request check, the login, logout and callback
  steps, the user records a login saves). Each public function states its
  result in its contract; the laws (`law_*` proof functions) state what holds
  across calls.
- `app/` is the program around it: the command line, reading the configuration
  file, building the caches and serving the health report over HTTP.
- `tests/` runs the library on concrete values.
