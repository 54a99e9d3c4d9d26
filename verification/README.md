# obd2_core

An OBD-II diagnostics library whose protocol logic is verified with Verus.

- `src/` — the verified library: DTC, PID, J1939 and service-request
  encoding and decoding (`protocol`), ELM327/STN response parsing, chipset
  detection and the initialization state machine (`adapter`), the mock
  adapter and mock transport, raw-capture escaping, headers and replay
  parsing (`transport`), request routing, bus discovery, DTC enrichment and
  deduplication, diagnostic-session rules, response decoding (`session`),
  vehicle spec data (`vehicle`) and hardware-test report comparison
  (`hwtest`). Every function carries a contract; the laws of the library
  are the public `lemma_*` proof functions.
- `tests/` — the test suite, run against the compiled library.
- `app/` — the runtime around the library: async transport and adapter
  traits, the ELM327 command loop, serial port access, capture files,
  YAML spec loading, floating-point value scaling, the session
  orchestrator, the polling loop and report files.
