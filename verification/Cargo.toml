[package]
name = "squig"
version = "0.1.0"
edition = "2021"
publish = false

[dependencies]
anyhow = "1"
clap = { version = "4", features = ["derive"] }
indicatif = "0.17"
indoc = "2"
log = "0.4"
plotly = { version = "0.8", features = ["kaleido"] }
rusqlite = { version = "0.31", features = ["bundled"] }
serde = { version = "1", features = ["derive"] }
ureq = { version = "2", features = ["json"] }
