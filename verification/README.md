# fq

A verified core of a QUIC stack, written in Verus.

- `src/` is the library. Every function in it carries a `requires`/`ensures`
  contract that Verus proves: connection IDs and SipHash, the QUIC context and
  its connection tables, connections and paths, congestion control (New Reno's
  recovery and notification steps, Prague's slow start, ACK and notification
  steps), packet-header parsing and variable-length integers, stateless
  packets and version negotiation, the screening of a client's first Initial
  packet, the decisions taken on a received segment (its route, the bytes it
  takes up, what is answered, the admission of 1-RTT and client Initial
  packets, the receive-rate sample) and on the next packet to send, the
  public random generator, the spin bit, the performance-log row, the
  decisions of the packet loop, and the qlog text of transport parameters and
  frames. Laws that relate several functions are
  stated as `law_*` proof functions.
- `app/` is ordinary Rust around the library: the clock, the system random
  source, the process-wide congestion-algorithm registry, the performance-log
  file, socket options and UDP sockets, qlog output, and the floating-point
  step of Prague's ACK handling.
- `tests/` runs the library on concrete values.
