[package]
name = "nlock"
version = "0.1.0"
edition = "2021"
publish = false

[dependencies]
anyhow = "=1.0.104"
cairo-rs = "=0.22.9"
chrono = "=0.4.45"
clap = { version = "=4.6.7", features = ["derive"] }
config = { version = "=0.15.27", default-features = false, features = ["toml"] }
dirs = "=7.0.0"
gdk-pixbuf = "=0.22.0"
nix = { version = "=0.31.3", features = ["event", "fs", "mman", "poll", "process", "time"] }
pam-rs = "=0.9.5"
serde = { version = "=1.0.229", features = ["derive"] }
tokio = { version = "=1.54.1", features = ["macros", "rt-multi-thread", "sync"] }
tracing = "=0.1.44"
tracing-subscriber = "=0.3.23"
uzers = "=0.12.2"
wayland-client = "=0.31.15"
wayland-protocols = { version = "=0.32.13", features = ["client", "staging"] }
xkbcommon = "=0.9.0"
zeroize = "=1.9.1"

[dev-dependencies]
xkeysym = "=0.2.1"
