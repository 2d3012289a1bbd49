[package]
name = "opencode_pty"
version = "0.1.0"
edition = "2021"
publish = false

[dependencies]
anyhow = "=1.0.104"
base64 = "=0.22.1"
crossbeam-channel = "=0.5.17"
fs2 = "=0.4.3"
libc = "=0.2.191"
nix = { version = "=0.30.1", features = ["process", "term", "user"] }
portable-pty = "=0.9.0"
rand = "=0.9.5"
serde = { version = "=1.0.229", features = ["derive"] }
serde_json = "=1.0.154"
sha2 = "=0.10.9"
shell-words = "=1.1.1"
windows-sys = { version = "0.60", features = ["Win32_Foundation", "Win32_Security", "Win32_Security_Authorization", "Win32_Storage_FileSystem", "Win32_System_IO", "Win32_System_Pipes", "Win32_System_Threading", "Win32_System_WindowsProgramming"] }
