[package]
name = "app_core"
version = "0.1.0"
edition = "2021"
publish = false

[dependencies]
urlencoding = "=2.1.3"
mime_guess = "=2.0.5"
strsim = "=0.11.1"
serde = { version = "=1.0.229", features = ["derive"] }
serde_json = "=1.0.154"
rusqlite = { version = "=0.41.1", features = ["bundled"] }
ureq = { version = "=3.5.1", features = ["json"] }
tracing = "=0.1.44"
lofty = "=0.25.5"
ab_glyph = "=0.2.32"
rand = "=0.9.5"
rust_cast = "*"
rustls = "=0.23.46"
