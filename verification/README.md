# go_magic_desktop

The verified core of the Go Magic desktop shell, a Tauri application that runs
the bundled `go-magic` backend as a child process and shows its web UI.

`src/` holds the decisions the shell takes, each with a contract proved by
Verus:

- `ports` — the order in which ports are tried and the choice of the first free one;
- `status` — reading the status line of the health probe's answer and its verdict;
- `health` — the probe request and the wait for a fresh backend to become ready;
- `backend` — where the executable is looked for, how it is started, how its
  output is logged, and the messages shown when that fails;
- `lifecycle` — reaping a stopped backend and the steps of a restart;
- `links` — which links stay in the window and which are handed to the browser;
- `laws` — properties that span those functions;
- `text` — Unicode white space, trimming and decimal digits.

`app/` is the Tauri program around it: sockets, processes, files, the window
and its floating-point geometry.
