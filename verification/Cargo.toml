[package]
name = "blaeckfetch"
version = "0.1.0"
edition = "2021"
publish = false

[dependencies]
blaeck = "*"
clap = { version = "4", features = ["derive"] }
flate2 = "1"
libc = "0.2"
serde = { version = "1", features = ["derive"] }
tar = "0.4"
toml = "0.8"
ureq = "2"
