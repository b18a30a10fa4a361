# media_player

A player for video and sound files with a playlist, a time slider and pictures that accompany
sound. What it decides stands in a library that is proved with Verus; the window, the decoder
thread and floating-point arithmetic stand around it.

- `src/playback.rs`: the course of playing one file, as a state machine that asks for one thing
  after another: opening, pausing, seeking, decoding, keeping to the clock, and the end.
  `src/playback_laws.rs` proves what holds of it as a whole.
- `src/media_streams.rs`: the file, and the cells through which the window steers the decoder.
- `src/player_app.rs`: the window's state and what follows from each thing the user does.
  `src/player_laws.rs` proves what holds of it as a whole.
- `src/video_frame.rs`, `src/audio.rs`: decoded pictures and sound on their way to the screen and
  the device.
- `src/visualizers.rs`: pictures that accompany sound.
- `src/time_code.rs`: times as they are shown.
- `src/ieee.rs`: comparing, bounding and cutting off floating-point numbers by their bit patterns.
- `app/`: the program around the library.

A floating-point value crosses the boundary as its bit pattern (`Double`, `Single`).
