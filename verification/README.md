# c6

Receiver side of a game-pad radio link, for an ESP32-C6 unit with a small LCD.

`src/` decides and is verified with Verus; it does no I/O.

- `packet`: sorts radio packets by magic and length.
- `peer`: the identity that the controller assigns.
- `radio`: what a frame or a command does.
- `receiver`: the receive loop as a state machine of events and actions.
- `view`, `seq_num`, `text`: the screen's snapshot, wrapping counters, log text.
- `self_test`, `boot`: the power-on tests and the way through them.
- `laws`: what holds of all of it together, as proved statements.

`app/` is the firmware around it: board bring-up, radio, wire codec, replay window
and drawing. The codec and the replay window come from `controller_protocol`, which
holds the link's keys and is not in a public registry.

`tests/` exercises the library on concrete values.
