# remote_conn

The server side of a remote desktop connection: how a peer logs on, what it may do, and how the
connection ends.

- `src/` is the library. It decides; it does no input or output. Each handler of `Connection` takes
  an event together with what the connection sees of the machine (`env::Env`), changes the
  connection and the registry that all connections share, and appends what is to be done
  (`action::Action`). The contracts say exactly what changes and what is asked for; `laws` holds
  what is true of connections as a whole.
- `tests/` runs the library on concrete events.
- `app/` performs the actions: it holds the event loop, the threads, the link to the connection
  manager, and the JSON of reports. The embedding program provides the machine, the services and
  the wire formats through `host::Host`.
