# bluetooth

The verified core of a Tauri plugin for Bluetooth Low Energy.

- `src/` is checked by Verus: characteristic properties (`props`), address
  text (`address`), byte-string order (`order`), device records and their
  order (`device`), GATT services and characteristics (`gatt`), scan filters
  (`filter`), UTF-8 payloads and thread names (`text`), and the scan session
  (`session`), a state machine that decides every step of a scan run.
- `app/` holds what talks to the Bluetooth stack (btleplug) and the async
  runtime (tokio): it performs the session's actions, and keeps serialisable
  copies of the records.
- `tests/` runs the library on concrete values.

Notes on the layout:

- A set of characteristic properties is `props::CharPropSet`, a byte with one
  bit per property. The serialisable copy in `app/` uses enumflags2's
  `BitFlags<CharProps>`; that type needs the `#[enumflags2::bitflags]`
  attribute on the enum, and an outside crate's attribute cannot stand in
  the verified library, so `src/` keeps the byte itself and `app/` converts.
- `Cargo.toml` names `dbus` with its `vendored` feature, which nothing calls:
  btleplug's Linux backend links libdbus, and the vendored build compiles
  libdbus from source instead of linking the system's copy.
- The Tauri command layer is not part of this crate: the handler those
  commands call is not part of the project. The text conversions that the
  string commands make stand in `text` (`string_payload`, `payload_string`).
