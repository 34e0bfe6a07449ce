[package]
name = "timecmd"
version = "0.1.0"
edition = "2021"
publish = false

[dependencies]
clap = { version = "4", features = ["derive"] }
ctrlc = "3"
libc = "0.2"
winapi = { version = "0.3", features = ["handleapi", "minwindef", "processthreadsapi", "psapi", "winnt"] }
