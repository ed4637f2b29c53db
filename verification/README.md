# moxin

The verified core of Moxin Voice and Moxin Translator.

- `src/voice/tts_emotion.rs`, `src/translator/tts_emotion.rs`: emotion presets
  and the instruction editor state of the text-to-speech screen of each app,
  and what a speech request carries.
- `src/translator/bounded_drop_down.rs`: selection rules of the bounded
  drop-down widget.
- `src/model_init.rs`: the decisions of the first-run model downloader
  (providers and their fallback, URLs, file lists, model directories).
- `src/text.rs`: string helpers shared by the above.
- `app/`: the downloader program and the drop-down widget, which do the
  network, file-system and UI work around the library.
