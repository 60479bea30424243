# mi

A simple and minimal coding agent harness: it streams answers from a chat-completions
endpoint, shows reasoning and content, runs the tools the model calls (read, write, edit,
bash), and lets the user invoke skills kept in `SKILL.md` files.

- `src/` is the library, verified with Verus: reassembling streamed answers, the
  conversation's messages, prompt editing key by key, what the terminal shows, the
  tools' replies and edits, skill files, image file naming, configuration paths, and
  the replies of the HTTP endpoints (status, JSON parse, what is read out of them).
- `app/` is the program around it: the command line, HTTP, the terminal, the disk,
  threads and floating-point balances.
- `tests/` runs the library on concrete values.
