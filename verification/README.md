# caption_translator

The core of a desktop realtime caption translator with two isolated
workflows: system subtitles (system audio, local ASR, translation, captions)
and microphone interpretation (microphone, local ASR, translation, Qwen TTS).

`src/` is the library, verified with Verus:

- `session`, `caption`, `events`: the session registry, the caption snapshot
  of both sessions, and the event log that the window drains by sequence
  number.
- `asr`, `pcm`: ASR messages, speech segmentation and finalization, and the
  resampling and chunking of PCM16 audio for the ASR service.
- `translation`: requests to a local translation service or DashScope, and
  the meaning of every reply.
- `tts`: checking a TTS request, finding the audio in a reply, the replay
  registry, and the playback status events.
- `services`, `startup`, `commands`, `devices`: probing and starting the local
  services, starting sessions, the settings page's checks, and audio device
  lists.
- `settings`, `redact`, `json`, `text`: settings defaults and validation,
  secret redaction, JSON values, and text primitives.

`app/` is the Tauri shell around it: commands, file and network I/O, audio
capture and playback, and the floating-point steps of audio handling.
