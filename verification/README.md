# any_terminal_size

Finds the size of the terminal of the current process, of one of its parents,
or of another process.

`src/` is the verified library. The searches need files, process ids and system
calls, so each is written as a state machine: a step takes the answer to the
last request and gives the next state and request, with a contract that fixes
both. The library also holds the parsing of `/proc/<pid>/stat`, the `/proc`
paths, the snapshot lookup, the relocation of a procedure address and the
exchange buffer of the Windows injection, and the laws that relate them.

- `size`: the `Size` type.
- `text`: Unicode whitespace, decimal parsing and formatting.
- `unix_impl`, `unix`: the Unix search.
- `windows`, `windows::dll`, `windows::dll_injection`: the Windows search.

`app/` performs the requests (files, `libc`, `terminal_size`, `winapi`) and offers the functions
with their usual signatures: `any_terminal_size()` and
`any_terminal_size_of_process(pid)`.
