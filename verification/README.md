# maschine_driver

A userspace MIDI driver for the Native Instruments Maschine Mikro MK3, with its core verified
in Verus.

- `src/` is the verified library: the buttons and pad events (`controls`), the light state
  (`lights`), the display (`screen`) and its digit font (`font`), the settings and their
  validation (`settings`), the MIDI note messages (`midi`), the handling of input reports
  (`driver`) and the start-up self test (`self_test`).
- `app/` is the program: it reads the configuration, opens the device over HID and a virtual
  MIDI port, runs the self test and then the report loop, doing the I/O that the library's
  functions ask for.
- `tests/` runs the library on concrete values.
