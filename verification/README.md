# motorcom

Protocol library for CAN-bus actuator motors (Damiao DM-series, Robstride
RS-series), verified with Verus.

* `src/` — the verified library: CAN ids and frames and the checks a frame
  passes before it is sent; the Damiao MIT payload layout, control-mode
  payloads, register table, register frames, reply matching and the
  control-mode read/write/verify sequence; the Robstride 29-bit id layout,
  operation-control layout, parameter table and value encoding, status
  words and reply classification. Floating-point values appear only as
  their IEEE-754 bit patterns.
* `app/` — the parts that do I/O or float arithmetic: the `CanTransport`
  trait with its SocketCAN and loopback backends, the MIT quantization
  between SI units and the integer fields, the per-motor drivers that send
  frames and wait for replies, and the Python bindings.
* `tests/` — tests of the library.
