[package]
name = "getdub"
version = "0.1.0"
edition = "2021"
publish = false

[dependencies]
anyhow = "=1.0.104"
blake3 = "=1.8.7"
chrono = "=0.4.45"
clap = { version = "=4.6.7", features = ["derive"] }
csv = "=1.4.0"
env_logger = "=0.11.11"
glob = "=0.3.4"
libc = "=0.2.191"
log = "=0.4.35"
memmap2 = "=0.9.12"
mft = "=0.9.1"
rayon = "=1.12.0"
rusqlite = { version = "=0.41.1", features = ["bundled"] }
serde = { version = "=1.0.229", features = ["derive"] }
walkdir = "=2.5.0"
windows = { version = "0.58", features = ["Win32_Foundation", "Win32_Security", "Win32_System_Threading", "Win32_Storage_FileSystem", "Win32_System_IO"] }
xxhash-rust = { version = "=0.8.19", features = ["xxh3"] }
