[package]
name = "prayer-times"
version = "0.4.2"
edition = "2021"
publish = false

[dependencies]
chrono = "0.4"
chrono-tz = "*"
confy = "*"
serde = { version = "1", features = ["derive"] }
strum = "*"
strum_macros = "*"
notify-rust = "4"
log = "0.4"
geolocation = "*"
get_if_addrs = "*"
