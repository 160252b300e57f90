# Snare

Access to captured HTTP flows: for agents over the Model Context Protocol, and for people in the
terminal.

`src/` is the library, verified with Verus.

- `json`: JSON documents, and the way to and from text by `serde_json`.
- `model`: flows as the store and the daemon hand them over.
- `tools`: the tools that agents can call, what each asks the store, and the result of the answer.
- `rpc`: the server's side of JSON-RPC 2.0, one message to a line.
- `store`: where the store of flows is kept.
- `tui`: the state of the terminal UI and what keys, refreshes and loaded flows do to it.
- `cycle`: the order in which the terminal UI refreshes, draws and waits for keys.
- `screen`: the lines that the terminal UI shows.
- `text`: decimal numbers, padding, white space and the beginnings of texts.

`app/` is the program around it: standard input and output, the SQLite store, the daemon's REST
API, and drawing with `ratatui`. Under the name `snare-tui` it is the terminal UI
(`snare-tui --host 127.0.0.1 --port 9000`); under any other, such as `snare-mcp`, it is the server.

The library trusts `serde_json` to read and write text, `Number`, `Map` and `Value` to hold what is
put in, and `String::from_utf8_lossy`; each of these stands behind one function, whose documentation
says what is claimed. All else is proved. Public proof functions named `law_` state what holds of
several functions together.
