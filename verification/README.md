# ya-runtime-dbg

A debugging tool for yagna runtimes: it deploys and starts a runtime, then reads
commands at an interactive prompt and runs them inside the runtime.

The decisions the tool makes are a verified library (`src/`):

- `text` — whitespace, trimming, substring search; wrappers for Unicode lowercasing
  and lenient UTF-8 decoding.
- `paths` — a model of Unix paths as strings: file name, parent, join, and the laws
  that join and parent undo each other.
- `exec_mode` — the `--exec-mode` option and the mode commands run in.
- `args` — the command-line options, resolving their paths, and the argument lists
  handed to the runtime.
- `command` — turning a prompt line into the process to start (shell words are split
  by `shell-words`).
- `events` — reactions to process status reports, output rendering, the command
  loop's and the prompt's decisions.
- `style` — coloured message lines and the prompt (`ansi_term`).
- `project` — the project directory (`directories`) and the history file.

`app/` is the program around it: option parsing, the terminal, the runtime
connection and the asynchronous plumbing.
