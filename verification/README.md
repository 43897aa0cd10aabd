# hugo_bridge

A bridge that turns DTMF digits, sent as `UserEvent`s over the Asterisk
Manager Interface, into key presses on a virtual keyboard.

- `src/` is the verified library: the configuration and its defaults
  (`config`), key names and keymap resolution (`keys`), the keyboard state
  (`keyboard`), manager message framing, login and event handling (`ami`),
  the session state machine and reconnection backoff (`session`), reload
  debouncing (`watcher`), and the text and map helpers they rest on
  (`text`, `strmap`).
- `app/` is the program: command line, TOML file, TCP connection, file
  watching, timers and the uinput device. It feeds what it reads to the
  library and carries out the actions the library returns.
- `tests/` exercises the library on concrete inputs.
