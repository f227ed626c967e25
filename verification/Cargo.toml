[package]
name = "gogit"
version = "0.1.0"
edition = "2021"
publish = false

[dependencies]
async-stream = "*"
clap = { version = "*", features = ["derive"] }
colored = "*"
crossterm = "*"
dialoguer = "*"
dirs = "*"
dotenvy = "*"
edit = "*"
futures-util = "*"
gix = { version = "*", default-features = false }
indicatif = "*"
octocrab = "*"
pulldown-cmark = { version = "*", default-features = false, features = ["html"] }
reqwest = { version = "*", default-features = false, features = ["json", "stream", "rustls-tls"] }
serde = { version = "*", features = ["derive"] }
serde_json = "*"
thiserror = "*"
tokio = { version = "*", features = ["macros", "rt-multi-thread", "time", "process"] }
toml = "*"
urlencoding = "*"
viuer = "*"
walkdir = "*"
