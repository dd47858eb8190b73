[package]
name = "openmix"
version = "0.1.0"
edition = "2021"
publish = false

[dependencies]
sha2 = "0.10"
serde = { version = "1", features = ["derive"] }
serde_json = "1"
thiserror = "2"
uuid = { version = "1", features = ["v4"] }
symphonia = { version = "0.5", features = ["mp3", "flac", "wav", "pcm"] }
rusqlite = { version = "0.32", features = ["bundled"] }
rustfft = "6"
aubio-rs = { version = "0.2", features = ["builtin"] }

[dev-dependencies]
tempfile = "3"
