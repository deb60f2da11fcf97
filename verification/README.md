# spike-prime

A library for the SPIKE Prime BLE GATT protocol, written in Verus.

- `src/` is the verified library:
  - `connection/framing.rs`: the byte-stuffed frames that carry messages,
    with the proof that decoding a frame gives back the message it carries
    and that `0x02` closes a frame and occurs nowhere else in it.
  - `connection/message.rs`: the messages sent to the hub and their exact
    byte layouts; the messages received and the enums they use.
  - `connection/message/cursor.rs`, `connection/message/parse.rs`: reading
    received messages, with the fault each malformed input reports.
  - `connection/checksum.rs`: the CRC-32 checksums of uploads and the chunks
    a transfer is cut into.
  - `connection/filter.rs`: gathering notification bytes into frames and
    routing what they hold.
  - `connection.rs`: the limits a hub announces, the packets a message is
    sent in, and what the hub's replies mean.
- `app/` holds the Bluetooth side (scanning, connecting, the notification
  task), built on `btleplug` and `tokio`, which calls the library for every
  decision.
