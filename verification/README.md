# ubenchmon

Benchmark monitor for latency-sensitive protocol benchmarks on Linux: a
terminal UI, a background daemon and service commands around the
libubenchmon C library (system setup, verification and a low-overhead
monitor).

The decisions of the program are a library verified with Verus (`src/`);
the program around it (`app/`) does the outside work — calling the C
library, files, processes, the clock and drawing with ratatui — and hands
the library plain values.

## Library modules

| Module           | What it holds                                                          |
|------------------|------------------------------------------------------------------------|
| `text`           | strings as character sequences: decimal text, parsing, trimming, search |
| `tabs`           | the tabs and Monitor sections and their cyclic order                    |
| `system`         | status codes, setup and verification results, monitor snapshots        |
| `calendar`       | the UTC times rendered and parsed with chrono                           |
| `config`         | the setup configuration and its JSON form                               |
| `roundtrip`      | proofs that stored files read back as written                           |
| `logger`         | the NDJSON metric log lines                                             |
| `service`        | the daemon's files, the systemd unit, the status report                 |
| `snapshot_store` | config snapshots: listing newest first, previews, the live state        |
| `app`            | the TUI state and its log                                               |
| `session`        | verification refreshes, the metric log, modals, the teardown sequence   |
| `sampling`       | feeding snapshots into the Monitor histories                            |
| `console`        | the Terminal tab: history and built-in commands                         |
| `input`          | what each key and the mouse wheel do                                    |
| `view`           | the texts the screen shows                                              |
| `cli`            | the command line                                                        |

Each step that needs outside work says so in its result (for example
`TerminalAction`, `KeyAction`, `SnapshotSource`), and takes the outcome
back as an argument of the next step.
