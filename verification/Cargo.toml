[package]
name = "rustvof"
version = "0.1.0"
edition = "2021"
publish = false

[dependencies]
ndarray = "0.16"
serde = { version = "1", features = ["derive"] }
toml = "0.8"
clap = { version = "4", features = ["derive"] }
log = "0.4"
env_logger = "0.11"
netcdf3 = "*"
