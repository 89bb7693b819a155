[package]
name = "proctime"
version = "0.1.0"
edition = "2021"
publish = false

[dependencies]
winapi = { version = "0.3", features = ["handleapi", "jobapi2", "minwindef", "processthreadsapi", "synchapi", "winbase", "winnt"] }
