# friday

The decision logic of F.R.I.D.A.Y., a desktop voice assistant, as a library
verified with Verus, and the program around it.

- `src/text.rs`: trimming of white space, lossy UTF-8 decoding, joining texts.
- `src/tools.rs`: the PowerShell arguments of the assistant's tools and the
  reports they give, including the system report.
- `src/gemini.rs`: the request to Gemini, the reading of its reply, the
  dispatch of tool calls, and the exchange as a state machine, with its laws.
- `src/hotkey.rs`: the push-to-talk hotkey and its laws.
- `src/setup.rs`: the first-run key checks and their law.
- `src/recorder.rs`: the sample buffer and the steps of starting a recording.
- `src/desktop.rs`: key-check addresses, theme detection, window placement,
  the tray icon.
- `app/`: the program: HTTP, processes, audio, keyboard hook, tray and UI,
  each performing what the library decides.
- `tests/`: tests of the library on concrete values.
