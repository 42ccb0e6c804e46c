[package]
name = "any_terminal_size"
version = "0.1.0"
edition = "2021"
publish = false

[dependencies]
terminal_size = "0.1.17"
libc = "0.2"
scopeguard = "1"
widestring = "0.4"
winapi = { version = "0.3", features = ["basetsd", "errhandlingapi", "handleapi", "libloaderapi", "memoryapi", "minwindef", "processenv", "processthreadsapi", "psapi", "synchapi", "tlhelp32", "winbase", "winnt"] }
