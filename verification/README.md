# socket2 (Windows layer, verified core)

The Windows socket layer of a socket library, with its logic verified by Verus.

- `src/` is the verified library: the Winsock constants, socket types and the
  `NO_INHERIT` flag (`sys`), what each Winsock call's return value means
  (`sys`), durations (`time`), timeout, linger and keep-alive conversions
  (`timeout`), IPv4/IPv6 addresses and their `IN_ADDR`/`in6_addr` layouts
  (`addr`), and for every socket option the `setsockopt` request that sets it
  and the meaning of what `getsockopt` reads (`socket`).
- `app/` converts to and from std's types and, on Windows only, makes the
  Winsock calls and hands their results to the library.
- `tests/` runs the library on concrete values.
