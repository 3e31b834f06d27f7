# hms2mqtt

The verified core of a gateway that reads telemetry from HMS-XXXXW-2T
micro-inverters over the local network and publishes it to an MQTT broker.

Devices with recent firmware encrypt. They are found out by their application
information, and are then asked for paged telemetry in encrypted frames; all
other devices are asked for telemetry in the legacy format. Both kinds end up in
one data model.

| Module         | Contents                                                              |
|----------------|-----------------------------------------------------------------------|
| `crypto`       | key, nonce and AES-128-GCM of protocol payloads                       |
| `frame`        | frames, their checks, and the reader of a response in pieces          |
| `requests`     | what can be asked of an inverter, and the messages that ask it        |
| `capabilities` | what a device says of itself                                          |
| `telemetry`    | merging of pages, and their way into the legacy format                |
| `session`      | the model of a session with an inverter                               |
| `inverter`     | the session itself, driven by events                                  |
| `laws`         | what holds of every session                                           |
| `course`       | a whole update told in one go, and that the steps add up to it        |
| `simple_mqtt`  | the messages to the broker                                            |
| `protos`       | the messages of the protocol, with the fields that are read or filled |
| `clock`        | timestamps and local time                                             |
| `error`        | everything that can go wrong, with its text                           |
| `bytes`, `text`| numbers on the wire and in messages                                   |

`app/` is ordinary Rust around the library: TCP, protobuf, logging, and payloads
with fractions as text.

What rests on other crates is declared where it is used: SHA-256 and AES-GCM in
`crypto`, the MODBUS checksum in `frame`, clock and calendar in `clock`. The
comment above each declaration says what is taken for granted there.
