# meetily_audio

The audio core of a meeting recorder, written in Rust and verified with Verus.

`src/` is the library. Each module states what it does in contracts over mathematical models, and
Verus proves them:

- `devices`: naming, listing and choosing audio endpoints
- `recording_state`: the state of a recording and of its two audio routes, and their evidence
- `recording_manager`, `stream`: changing devices during a recording, and watching its streams
- `recording_commands`: starting, pausing, resuming and ending a recording, and what is shown of it
- `recording_saver`, `incremental_saver`: checkpoints, rows of text and metadata
- `recording_preferences`: the user's preferences and the folder for recordings
- `transcription`: the queue of audio, its batches, the engines and live rows
- `retranscription`, `transcripts`, `segmentation`, `gap_audio`: transcribing a meeting again
- `measurement`: controlled input and the trace of a measured recording
- `outside`: what the library takes from other crates and from the system, on trust
- `text`: strings

Samples and levels are opaque values or the bit patterns of 32-bit floats, and times count
nanoseconds. Functions whose names begin a step of a longer process return the next action; the
program around the library carries it out and hands back what came of it.

`app/` is that program: files, threads, events, and floating-point arithmetic. It reaches the
devices, codecs and engines of a machine through the traits in `app/host.rs`.

`tests/` runs the library on concrete values.
