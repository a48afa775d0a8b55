# ofborg

Builds the command lines that run Nix tools on untrusted package sets in
restricted mode, and reads back what those tools print. The library under `src/`
is verified with Verus; `app/` runs its commands as processes.

- `nix`: the settings of a `Nix`, and the commands made from them
- `operation`: the tools and the arguments that select what they do
- `command`: a program with its arguments, environment and directory
- `output`: how a program that ended is judged, and how its log is read
- `machine`: the functions that the caller hands in to run programs and read logs
- `path`, `text`: paths and text building blocks
- `command_laws`, `log_laws`: what holds of every command and of every log
