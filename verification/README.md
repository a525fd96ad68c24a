# CLI Pulse desktop

The decisions of the CLI Pulse desktop app, written in Verus: what is alerted, what is told, when
the device syncs, who may do what, and in which order. The contracts say what every function
returns for every input; the public proof functions state what holds across functions.

- `src/` is the verified library.
  - `text`, `number`, `clock`: texts, floating point numbers by their bits, points in time.
  - `usage`, `alerts`, `notify`: what a scan reports, the alerts it calls for, and how they are told.
  - `tray`: the menu, its rows and what clicks do.
  - `sync`, `upload`, `quota`: the background sync, one round of it, and the quotas it sends.
  - `account`, `server`, `device`, `cache`: sign-in and pairing, faults, this device, cached data.
  - `remote`, `requests`, `creds`, `terminal`, `startup`: remote control, windows and file names,
    credentials, terminals, and the life of the app.
- `tests/` runs the library.
- `app/` is ordinary Rust around it: files, network, clock and windows. Its shell over Tauri is
  built with `--cfg desktop_shell`.

Amounts are summed and printed by `app/`, because they are floating point; the library compares them
exactly, by their bit patterns, and puts the printed texts together.
