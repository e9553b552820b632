# big_fat

Sums every audio file of a directory (`wav`, `flac`, `mp3`, `ogg`) into one
32-bit float WAV file.

- `src/` is the verified library: the once-filled settings slot (`LateInit`),
  reading the command-line values (`Settings::from_args`), which paths are audio
  files, the stream-format check, the per-iteration bookkeeping of finished
  readers (`end_iteration`) and the progress counters (`PollInfo`), and every
  line of text the program reports.
- `app/` is the program around it: argument handling, directory walking,
  decoding, summing floating-point samples in parallel and writing the WAV file.
- `tests/` runs the library on concrete values.
