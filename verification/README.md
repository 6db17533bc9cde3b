# spellbook

A command-line tool that runs local language models through a llama.cpp
server, configured by a YAML file: it serves a model in the foreground, runs a
daemon that switches between models on request, checks the installed tool
versions and installs shell completions.

- `src/` is the verified library (Verus): the configuration model and its
  lookups, the server and download command lines, reading tool versions,
  the daemon's request protocol and state, the process id file, the status
  report, and the completion scripts, with the text and number primitives
  they rest on.
- `app/` is the program around it: argument parsing, reading the YAML file,
  files, processes, sockets and signals.
- `tests/` runs the library on concrete inputs.
