# x11_window

Windows with an OpenGL context on an X server.

- `src/` is the library. It decides everything that a window does: how it is made, what
  it asks of the X server and in which order, which events it reports, and how it is given back.
  It makes no call itself: requests, questions and replies are plain values. Every function has a
  contract that Verus proves, and the modules whose names end in `_laws` state what holds of
  whole conversations with the server.
- `app/` carries out the requests and asks the questions, through `x11-dl`.
- `tests/` runs the library against servers made of canned replies, and holds its numbers
  against those of `x11-dl`.

Beyond what vstd states of std, one thing is believed and not proved: what `std::str::from_utf8`
does (`src/text.rs`).
