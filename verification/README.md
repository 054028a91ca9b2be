# carbide

Verified core of fleet-management tooling for BMC-managed servers and
BlueField DPUs, written in Verus.

- `src/` is the library: DPF resource naming, labelling, registration and
  deletion decisions; the health pipeline's pending-report queue, gauge
  rounds, leak detection, NVUE collection rounds and collector planning;
  the BMC explorer's hardware identification, lockdown and machine-setup
  checks; the BMC mock's managers, systems, chassis and discovery records
  for each mocked machine; Vault setting resolution and token-refresh
  decisions; and the shared metrics holder. Its functions carry contracts
  that Verus proves.
- A few small functions hand one call to std or to an outside crate and
  are trusted, not proved: Verus takes their contracts as given. They are
  `push_char` (`String::push`), `to_lowercase`
  (`str::to_lowercase`), `debug_text` (`{:?}` formatting of a string),
  `parse_mac` (`mac_address`'s parser), `sha256_digest` (`sha2`) and
  `json_is_object` (`serde_json::Value::is_object`). Each one's doc
  comment says what its contract claims.
- `tests/` exercises the library on concrete values.
- `app/` holds the runtime around it: Prometheus registries and the
  metrics endpoint, shared queues and holders behind locks, and reading the
  environment and the file system.
