# ps_utils

`ps` is a PowerShell toolkit: a menu of TCP ports and their processes, a
process list, saved paths, workspaces of several tabs, command history,
environment variables, custom shortcuts, and the profile bridge that makes
them available without the `ps` prefix.

## Layout

- `src/` is the library, written in Verus. Its functions carry
  contracts, and the contracts are proved: what the `netstat` reader keeps,
  how rows are filtered and ordered, what each key does in each menu, the
  PowerShell that shortcuts and workspaces emit, how the managed profile
  block is inserted or replaced, and the text of every line the tools
  print. Laws that relate several calls are public proof functions whose
  names start with `law_`.
- `app/` is the `ps` command around the library: argument parsing, files,
  child processes, the system's process table and the terminal. It hands
  the library plain values and prints what the library returns.
- `tests/` runs the library on concrete inputs.

The library reads and joins paths as Windows does (drive, UNC and verbatim
prefixes, `\` between segments); the command turns the separator into `/`
elsewhere before a path reaches the file system.
