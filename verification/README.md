# friday

Voice recording for a desktop host, verified with Verus.

The library under `src/` holds the decisions: when a recording may start, pause,
resume, finish and be replayed, how recorded time is counted, how recordings and
their segments are named, how segments become one WAV file, how the recorder
process is stopped, what the hotkey triggers, and what the panel shows. Each
function states what it does in its contract, and the laws that span several
functions are public proof functions beside them.

The host under `app/` owns the window, the microphone, the processes, the files
and the clock. It reports what it finds there and does what the library decides.

Calls into `hound`, `chrono` and `global-hotkey` that only compute stand in `src/`
behind small wrappers, whose contracts are taken from those crates.
