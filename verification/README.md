# gpt_screenshot

The verified core of a desktop assistant: the user drags a rectangle over the
screen, the program captures it, and a prompt (with or without the screenshot)
is sent to a chat model whose streamed answer is shown in the window.

- `src/` — the library, verified with Verus: selection geometry, screenshot
  file names, PNG data URLs, chat requests, the prompt/response history, the
  streamed transcript, settings-store rules, start-up prompt handling.
- `app/` — the Tauri program around it: window, commands, settings store,
  screen capture, files, environment variables and the network stream.
- `tests/` — tests of the library on concrete values.
