# rs_cpu

Hardware identification heuristics, firmware and device-query parsers,
benchmark and stress-test decisions, and diagnostic reports of a hardware
diagnostic suite, written in Verus. Every function of the library carries a
contract that Verus proves, except a few small trusted wrappers, each marked
`#[verifier::external_body]`, whose contracts are believed, not proved:

- `text`: `push_char` (`String::push`), `to_lowercase` and `to_uppercase`
  (`str::to_lowercase`, `str::to_uppercase`);
- `cpu`: `associativity_text` (the `Display` text of
  `raw_cpuid::Associativity`) and `char_is_alphanumeric`
  (`char::is_alphanumeric`);
- `storage`: `lossy_text` (`String::from_utf8_lossy`);
- `gpu`: `utf16_text` (`String::from_utf16_lossy`).

Where such a result is too large to state (Unicode case mapping and
classes, lossy decoding), the contract names it with an uninterpreted spec
function and the verified callers are stated over that name.

- `src/` — the verified library, one module per area: `cpu`, `motherboard`,
  `memory`, `storage`, `gpu`, `power`, `bench`, `report`, `theme`,
  `ui_state`, and `text` (string helpers shared by the others).
- `tests/` — tests run against the compiled library.
- `app/` — a command-line front end: it reads the machine (CPUID, the
  operating-system monitor, SMBIOS, volumes, Windows device queries), runs the
  workloads on threads, reads the clock for report dates, and saves
  reports. The graphical interface of the suite is not part of this crate;
  the front end prints to the terminal.

Measurements are held as integers in fixed units (tenths, millivolts,
bytes).
