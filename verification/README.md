# repeatable

The core of a desktop macro recorder: it records global mouse and keyboard
input with time stamps, keeps a library of named macros, and replays a macro
once, a given number of times or endlessly, at a chosen speed, under four
rebindable global hotkeys.

`src/` is the library, written in Verus and verified:

- `models`: events, macro files, hotkey settings, and their views.
- `commands`: the commands that drive the application.
- `hotkeys`: which command a key press stands for.
- `scheduler`: loop modes and the counting down of passes.
- `recorder`: what a captured input event turns into.
- `playback`: the playback cursor, delay scaling, scan codes and device actions.
- `state`: the application state machine; outside work is asked for as effects.
- `storage`: macro file names and the order of the loaded library.
- `text`, `ui`: character-level helpers and short interface texts.
- `laws`: properties that span several operations.

`app/` is the desktop program around it: the window, file dialogs, files on
disk, the global input hook, the input synthesiser and the async playback
task. `tests/` runs the library on concrete values.
