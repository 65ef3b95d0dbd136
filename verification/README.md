# client_lib

The verified core of FocusGuard, a desktop client that watches typing,
pointer, idle and window-switching behaviour in rolling 60-second windows,
classifies each window as Focused, At Risk, Procrastinating or Idle, and
suggests short breaks when focus slips.

* `src/` is the library, written in Verus: every function carries a contract
  that Verus proves, except the few wrappers around chrono, rand and std
  (time, random draws, number parsing and formatting) whose contracts restate
  those libraries' documented behaviour and are trusted. It holds the feature counts of a window, the decisions of
  the input hook and of the prediction loop, the break-activity bandit, the
  relabelling that follows a user's answer, the streak settings and the
  catalogue of break activities.
* `app/` is the Tauri shell around it: the OS input hook, the SQLite store,
  the ONNX model, the floating-point feature ratios and the window commands.
* `tests/` exercises the library on concrete inputs.
