# embassy-nina

Driver for the u-blox NINA-W102 Wi-Fi module running the Arduino WiFiNINA
firmware (Arduino Nano RP2040 Connect, Nano 33 IoT, MKR WiFi 1010, ...),
with its protocol logic verified in Verus.

## Layout

- `src/` — the verified library.
  - `proto` — opcodes, protocol constants and the protocol enums with their
    byte codes.
  - `frame` — command frames (8-bit and 16-bit parameter lengths, 4-byte
    padding) and the reply decoders. A decoder is a function of the bytes
    clocked in so far: it answers how many more bytes to clock in, or the
    outcome. Proved: a well-formed reply after idle bytes decodes to its
    payload, bytes after the reply change nothing, and the decoder never
    asks for a byte past the reply's end.
  - `request` — the exact frame of every chip operation.
  - `reply` — the meaning of every reply payload.
  - `poll` — retry budgets, deadlines, DNS polling and the chunking plan of
    TCP sends.
  - `scan`, `driver`, `tcp`, `nal`, `nopin`, `error` — the handle types.
- `app/` — the async glue: bus exchanges, delays, and the
  `embedded-io-async` / `embedded-nal-async` trait implementations.
- `tests/` — tests of the library on concrete frames and replies.
