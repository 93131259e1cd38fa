# emsys-cli

Command line and terminal interface for EMSYS income statements, with its
rules verified by Verus.

- `src/` is the verified library: configuration rules, the search requests
  sent to the EMSYS API, the rules a new journal transaction must meet and the
  request that posts it, the meaning of the command-line arguments and the text
  they print, and the state machine and screen text of the terminal interface.
  Money is held in cents.
- `app/` is the program around it: argument parsing, HTTP calls to the EMSYS
  API and to Firebase, the saved session, the terminal loop and drawing.
- `tests/` exercises the library on concrete values.
