[package]
name = "rusty_dotfiler"
version = "0.1.0"
edition = "2021"
publish = false

[dependencies]
clap = { version = "=4.6.7", features = ["derive"] }
dirs = "=5.0.1"
sudo = "=0.6.0"
toml = { version = "=0.8.23", features = ["preserve_order"] }
