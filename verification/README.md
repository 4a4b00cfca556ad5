# Desktop capture

Shows the desktop inside a game engine. A worker captures frames from the
operating system, converts them to RGBA8 and hands each complete frame to the
engine's main thread through a pair of buffers.

- `src/` is the library, proved with Verus: pacing and error handling of the
  worker (`capture_thread`), the node's state (`desktop_caster`), the rules of
  each platform's backend (`backends`), pixels and sizes (`frame`), messages
  (`text`), and the way of a frame through the whole system (`pipeline`).
- `app/` is the extension around it: threads, locks and the clock, the engine's
  classes, and the calls into PipeWire, X11 and Direct3D.
- `tests/` runs the library on concrete values.

The library never waits, locks or talks to the system. It is told what happened
and answers what to do next; `CaptureSession` and `CaptureWorker` are the two
state machines that the worker's thread drives.
