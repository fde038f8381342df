[package]
name = "leptosfmt"
version = "0.1.0"
edition = "2021"
publish = false

[dependencies]
leptosfmt-formatter = "*"
toml = "*"
glob = "*"
anyhow = "*"
rayon = "*"
clap = { version = "*", features = ["derive"] }
