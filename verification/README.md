# b3_iot

The verified core of a small RP235x IoT firmware.

- `src/` is the library, checked by Verus: the capability traits that a
  board implements, the switch, pump and multiplexer drivers, the
  decisions of the HTTPS client (redirects, byte ranges, retries), and the
  over-the-air update procedure (version check, manifest checks, segmented
  download, digest acceptance).
- `app/` is the hardware side: the asynchronous traits, the embassy
  drivers for the board and its radio, the bootloader's start, and the
  loops that perform the network and flash work that the library's
  machines ask for.
- `tests/` exercises the library on concrete values.
