# monitor

The monitor tool of an agent: it runs a shell command as a long-lived background watcher and
hands every line that the command prints to the model as a notification.

- `src/` is the library, verified with Verus. It decides everything that a call decides: what
  is refused, what the host is asked to do and in which order, what is answered, how a
  notification is kept apart from what the user wrote.
- `app/` performs what the library asks for: it parses JSON, awaits the session's services, and
  holds back the delivery task until its monitor is registered.
- `tests/` runs the library on concrete values.

Every statement about a call is made in `src/protocol.rs`, as a relation between where the call
stands, what came of the last action, and what comes next. `src/laws.rs` proves what follows for
whole calls: that a watcher runs with the permissions granted for its directory, that a monitor
is in the registry before its delivery is released, that a stopped monitor's process is
terminated before the monitor is removed. `src/registry.rs` proves what holds across calls: that a
stop undoes a start, and that a second stop finds nothing. `src/notification.rs` proves that no output and no
label can close a notification early.
