# apexos_ui

The logic of the APEX shell, the desktop of an agent's machine: windows and preset layouts,
the chat and its tool cards, reflexes, the work board, the reader that follows the agent on
the web, the studio with its cutting room, settings, sessions, files, identities, the mesh,
and the client of the 3D world. The library under `src/` is verified with Verus; the program
around it is not.

* `src/` is the library. Every module holds plain state, a mathematical model of it, and
  functions whose contracts say over that model what they return and change. Laws that span
  functions are public proof functions, in the module they are about or in `*_laws.rs`. What
  the library asks of the program around it comes back as values of `effects::Effect`.
* `app/` is a program around the library for a terminal: sockets, requests, files, processes,
  and what else needs floating point.
* `tests/` runs the library on concrete values, with the real crates behind it.

The crates `serde`, `serde_json`, `image`, `base64` and `tungstenite` are called from the
library through small wrappers. Each says in its comment what is believed of the call.

Places and sizes of windows and the times of the cutting room are numbers of 32 bits,
`floats::Single`, whose arithmetic is done in whole numbers and rounds as IEEE 754 does. Rates
are millihertz.
