# max11300

Driver for the MAX11300 (PIXI) 20-port mixed-signal I/O expander. Its
decisions are specified and proved in `src/`.

- `src/` — the library:
  - `config.rs`: register map, ports, the fields of the port configuration
    words and of the device control word;
  - `frame.rs`: command bytes, single-register and burst frames (built in a
    fixed-capacity `heapless::Vec`), decoding of values read back;
  - `session.rs`: a driver operation (bring-up, register reads and writes) as a
    sequence of enable-pin and bus steps; the caller performs each step and
    hands back its outcome;
  - `port.rs`: ports configured for a function, their register requests, and
    the check that a group of ports stands in a row.
- `app/` — the async driver on `embedded-hal-async` and `embassy-sync`: it
  performs the steps a session asks for and shares the device between ports.
- `tests/` — scenarios driven through sessions on a scripted bus.
