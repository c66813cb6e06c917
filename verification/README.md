# kta

A terminal music player: it lists the mp3 and flac files under a directory,
plays them, shows the cover art and the tags of the selected track, and draws a
spectrum or an oscilloscope of what is playing.

`src/` is the verified library (Verus):

- `app` — the player's state, moving the selection, which track a key or a tick
  starts, the spectrum bars;
- `track` — a track's shown name and album from its tags, which files belong in
  the library;
- `ring` — the ring of samples written by the decoder and read by the visualizer;
- `view` — the texts, colours and bar layout of the screen;
- `cover` — choosing the cover art among the pictures of the tags;
- `player` — toggling playback;
- `text` — decimal numbers and upper case.

`app/` is the program around it: the terminal, the audio output, reading files
and tags, the floating-point signal processing, and drawing.

The audio output goes through `rodio`, which `Cargo.toml` does not list;
`app/` is written against rodio's API and needs it added to build.
