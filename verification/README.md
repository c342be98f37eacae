# bletio-hci

The Host Controller Interface (HCI) part of a Bluetooth Low Energy stack, written in Verus.

- `src/` is the verified library: the parameter types of the HCI commands (with their ranges and
  consistency rules), their byte encodings, the parsers of command, event and ACL data packets,
  and the state machine that decides what the host makes of each packet read from the
  Controller. Each parser is stated as a function on byte sequences, and the encoders are proved
  to be read back by the parsers.
- `app/` holds what needs asynchronous I/O: the `Hci` type that drives an HCI driver, applies
  the command timeout and hands every decision to `hci::HciState`; it also converts time units to
  milliseconds.
- `tests/` holds the tests, run against the compiled library.
