[package]
name = "bdja"
version = "0.1.0"
edition = "2021"
publish = false

[dependencies]
blake3 = "1"
num_cpus = "1"
bincode = "1"
serde = { version = "1", features = ["derive"] }
serde_json = "1"
thiserror = "1"
symphonia = { version = "0.5", features = ["all"] }
realfft = "3"
rusqlite = { version = "*", features = ["bundled"] }
parking_lot = "0.12"
rayon = "1"
jwalk = "0.8"
windows = { version = "0.52", features = ["Win32_Storage_FileSystem", "Win32_Foundation"] }
