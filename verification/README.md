# friend_rs

A terminal voice companion: it listens on the microphone, transcribes
locally with Whisper, answers through a local Ollama model and speaks the
reply with Piper.

- `src/` is the verified library (Verus). It holds the decisions and the
  data: the recording state machine that decides which microphone chunks
  belong to an utterance and when it ends (`audio`), the two modes and how
  one is picked from the command line (`config`), the conversation memory
  with its bounded window (`memory`), the per-turn decisions (`conversation`),
  chat messages, the chat address and request (`ollama`), the transcript
  built from recognised segments (`stt`), what the synthesiser is run with
  (`tts`), and whitespace trimming as `str::trim` does it (`text`).
- `app/` is the program around it: audio streams (cpal), floating-point
  signal work, WAV files (hound), HTTP (reqwest), Whisper, running Piper and
  playing audio (rodio), and the main loop (tokio).
- `tests/` exercises the library on concrete values.
