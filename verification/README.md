# axeane_bridge

Decision logic of a desktop tool that enters invoices into the Axeane online
ledger: a browser extension connects over a WebSocket, the tool detects the ledger
entry form, and injects a script that fills one entry per extracted invoice row,
using per-client templates of ledger lines.

* `src/` — the verified library (Verus): application state, template selection
  and JSON payload, injection and detection scripts, the browser bridge's
  commands, messages and ticks, the browser launch, the editing panels' decisions,
  and text utilities.
* `tests/` — tests of the library against concrete values.
* `app/` — the program around it: WebSocket server, HTTP calls to the language
  model, process spawning, and the floating-point evaluation of template formulas.
