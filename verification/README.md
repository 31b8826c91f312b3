# pipewire_capture

The decisions of a screen recorder, verified with Verus: which picture goes into
the file and at which timestamp, which audio samples are mixed, where in a frame
the recorded window is read, and in which order a recording is opened and closed.

The output is driven by a clock and not by arriving frames. A picture is stamped
with the frame index that real time is on, so a stall becomes one longer-held
frame and the file lasts as long as the recording ran.

- `src/` is the library. Its contracts are over plain values; the laws that relate
  several functions are the public proof functions whose names begin with `law_`.
- `tests/` runs whole recordings on a clock that is moved by hand, and some on the
  machine's own.
- `app/` drives the library with encoders, a file and audio rings behind two traits.

Two things are taken on trust from the standard library: that `Instant::now` and
`Instant::elapsed` return at all. Nothing is claimed of what they return.
