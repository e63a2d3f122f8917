# kyutaistt

A GStreamer element that turns speech into text with a Kyutai model. What the
element decides is a Verus library; what needs floating-point arithmetic, the
model, files or GStreamer stands around it.

- `src/` is the library. Numbers in floating point pass through it as bit
  patterns (`ieee`), and JSON goes through `serde_json` (`json`).
  - `pcm`: bytes to samples, stereo frames, cutting into steps
  - `vad`: pauses and turns, from the energy of the signal
  - `model`, `setup`: what the model is fed, what its messages mean, its shape
  - `properties`, `signals`, `caps`: what the element declares
  - `control`, `transcript`: commands in, transcripts out
  - `element`: the state of the element, and how buffers pass through it
  - `conversation`: what holds of a whole transform call
- `tests/` holds its tests.
- `app/` is the plugin: it runs the model, resamples, measures energy, and talks
  to GStreamer. It takes the GStreamer development files and `sentencepiece` to
  build.

A transform call is a conversation. The element answers each call with signals to
emit and work to do, and the plugin comes back with the result of that work.
