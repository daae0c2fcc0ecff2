# rmqtt_test

The verified core of an MQTT v5 conformance-test harness, written in Verus.

- `src/testcase.rs`: test verdicts, test results and the `TestCase` interface.
- `src/packets.rs`: the contents of the packets an MQTT v5 client sends (CONNECT,
  PUBLISH and its properties, SUBSCRIBE, UNSUBSCRIBE, acknowledgements).
- `src/reason.rs`: DISCONNECT reason codes and the DISCONNECT contents.
- `src/waiters.rs`: SUBACK/UNSUBACK waiters keyed by packet identifier.
- `src/session.rs`: the client session shared with the connection reader:
  packet-identifier counter, acknowledgement switches, and the reaction to every
  packet the broker sends.
- `src/error.rs`: client errors and the end of a wait for an acknowledgement.
- `app/`: the asynchronous client (`MqttV5Client`) over TCP and tokio, which
  performs the I/O and hands the decisions to the library.
