[package]
name = "plex_presence"
version = "0.1.0"
edition = "2021"
publish = false

[dependencies]
anyhow = "1"
ctrlc = "3"
directories = "*"
discord-rich-presence = "*"
nix = { version = "*", features = ["signal", "process"] }
reqwest = { version = "*", default-features = false }
serde = { version = "1", features = ["derive"] }
serde_json = "1"
single-instance = "*"
tokio = { version = "1", features = ["macros", "rt-multi-thread", "time"] }
toml = "*"
urlencoding = "*"
