[package]
name = "pokedex"
version = "0.1.0"
edition = "2021"
publish = false

[dependencies]
rusqlite = { version = "*", features = ["bundled"] }
serde = { version = "*", features = ["derive"] }
serde_json = "*"
ureq = { version = "*", default-features = false, features = ["json"] }
rouille = { version = "*", default-features = false }
clap = "*"
