[package]
name = "discord_spice"
version = "0.1.0"
edition = "2021"
publish = false

[dependencies]
strfmt = "*"
arc-swap = "*"
async-trait = "*"
log = "*"
poise = "*"
serde = { version = "*", features = ["derive"] }
thiserror = "*"
tokio = { version = "*", features = ["full"] }
toml = "*"
