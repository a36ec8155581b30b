# panduza_platform_core

Core of the Panduza platform: the logic that drivers and attribute servers
share, written in Verus with its contracts proved.

- `src/` is the verified library:
  - `codec` – codecs between attribute values and message payloads
    (raw bytes, enum choices, SI numbers, number lists, SCPI helpers);
  - `helper::scpi` – SCPI booleans;
  - `interface` – serial framing (end of line, SLIP, time lock), USBTMC
    framing and endpoint choice, USB and TCP settings read from JSON;
  - `factory` – the store of products and production orders;
  - `instance` – the instance state machine and its reactions to task
    events, topics, command queues, callback registries and enum choices;
  - `text`, `json`, `buffer` – text rendering and the contracts of the
    `serde_json` and `bytes` calls the library makes.
- `app/` holds what runs around the library: the serial, USB and TCP
  drivers, the instance runtime loops, serde copies of library types and the
  helpers that compute on floating point values.
- `tests/` runs the library on concrete values.
