# sap_automation

Automation of SAP GUI reports (VT11, ZVT11, VL06O, ZMDESNR, the 149 report)
from a terminal menu or unattended runs, driven by `config.toml` and
command-line overrides.

- `src/` is the verified library: the command line and its validation, the
  settings file (reading, merging overrides, writing), the report parameters,
  the layout dialogs as a state machine, the VT11 ListCheck and export and
  the VL06O dialogs and automatic run as state machines (`vt11_flow`,
  `vl06o_flow`), reading exported reports and
  ListCheck files, the menu and the terminal widgets' key handling, the
  unattended runs' decisions, and a mock SAP session for tests. Its functions
  carry contracts that Verus proves, except the few marked
  `#[verifier::external_body]`: they call `chrono`, `regex`, `toml`,
  `serde_json` or std, and their contracts are trusted, not proved.
  `config_laws`, and the proof functions at the end of several modules,
  state what holds across calls.
- `app/` is the program around it: clap, the terminal drawing, SAP GUI
  scripting over COM (the connection, the menu, the unattended runs, the
  layout dialogs, and the steps the VT11 and VL06O state machines ask for),
  the settings file on disk and keeping Windows awake. The VL06O selection
  screen itself and the other reports' screens are not driven, and Excel
  files are not read.
- `tests/` runs the library on concrete values.
