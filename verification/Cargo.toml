[package]
name = "sandbox_research"
version = "0.1.0"
edition = "2021"
publish = false

[dependencies]
rand = "=0.8.5"
tokio = { version = "1", features = ["rt-multi-thread", "macros", "sync", "time"] }
tonic = "0.11"
prost = "0.12"
tracing = "0.1"
tracing-subscriber = "0.3"
minhook = "*"
windows-sys = { version = "0.52", features = ["Win32_Foundation", "Win32_Security", "Win32_System_IO", "Win32_Storage_FileSystem", "Win32_System_Threading", "Win32_System_Memory", "Win32_System_Diagnostics_Debug", "Win32_System_LibraryLoader"] }
