# sbh_tui

The decisions behind a terminal dashboard for disk-pressure monitoring, written
in Verus: what every screen shows, where its panes stand, what a key does, which
data source is trusted, and what happens to the operator's preferences. Every
function with a body in `src/` carries a contract. Verus proves all of them but
those of a few items that stand for calls into other crates and the standard
library; each of these says in its comment what is taken for granted.

| Module | Subject |
| --- | --- |
| `model` | screens, navigation, cursors, notifications, rate histories |
| `input` | key bindings, command palette, contextual help |
| `layout` | pane geometry of every screen |
| `incident` | severities, playbook, hints, banner |
| `preferences` | profiles, validation, debounced writes, session overrides |
| `telemetry` | filters, database queries, log tail, fallback between backends |
| `adapters` | state-file freshness and filesystem fallback |
| `markup` | content as styled pieces |
| `render` | pages, panes and whole frames |
| `runtime` | runtime selection, preference actions, command execution |
| `cockpit` | the event loop between two frames |
| `terminal` | terminal size from the environment |
| `text`, `double` | strings by character; doubles by bit pattern |
| `order` | sequences that keep the order of another one |

Floating-point measurements travel as bit patterns and are only compared here.
Formatting them, painting cells, reading files and databases and waiting for
events is left to `app/`.
