# sidealsa

The decisions of a low-latency audio daemon, written in Verus: one process owns the sound device
and shares it between one exclusive PRO client (or two that form a group, one for each direction)
and any number of buffered shared ports. Whatever a client does or fails to do is never a hardware
event, and the library proves it.

`src/` is the verified library. It holds no I/O: it is handed what was observed and says what to do.

| Module | What it decides |
| --- | --- |
| `sequence`, `arith`, `timing` | wrapping sequence numbers, bounded arithmetic, deadlines and start depths |
| `timeline`, `latency`, `diagnostics` | what is counted, and when a queue has grown for good |
| `routing`, `transfer` | samples on their way between ports, blocks and the device |
| `loopback`, `measurement` | the startup qualification of a loopback, and the round-trip measurement |
| `engine`, `control`, `error`, `config`, `pro` | geometry, lifecycle and failures of the hardware engine |
| `cycle` | the audio cycles, the workers, calibration and restarts, as state machines |
| `protocol` | the control protocol and the layout of shared regions |
| `daemon` | sessions, ownership, the bridges between the cycles and the clients, and the control connection |
| `arguments` | the daemon's command line |

A state machine has an `action` that names the one thing to do next and a `step` that takes what
came of it. Each has a spec function for its steps, and public proof functions state what holds of
every run: that commits are bracketed, that a period is written under one number, that only
hardware events change the hardware history.

Other laws speak of any order of calls. They fold the spec functions of the calls over a sequence of
them: that a limited run processes its periods and ends (`cycle`), that a report agrees with itself
(`timeline`), when a pair is rebased (`latency`), what is repeated in place of a missing block
(`daemon::repeat`), and that a slot keeps its owner and no session id is given twice
(`daemon::history`).

The only thing taken on trust is that `String::from_utf8` decodes UTF-8 (`protocol::wire`).

`app/` is the program around the library: ALSA streams, realtime scheduling, event descriptors,
the control socket and the command line. Profile files and shared memory regions come from the
sibling crates `sidealsa_config` and `sidealsa_client`.

`tests/` runs the library, including the daemon with regions that live in the test.
