[package]
name = "melovitui"
version = "0.1.0"
edition = "2021"
publish = false

[dependencies]
apodize = "1"
chrono = "0.4"
clap = { version = "4", features = ["derive"] }
directories = "5"
log = "0.4"
log4rs = { version = "1", default-features = false, features = ["file_appender", "pattern_encoder", "threshold_filter"] }
parking_lot = "0.12"
ratatui = "0.29"
rodio = "0.20"
rustfft = "6"
serde = { version = "1", features = ["derive"] }
serde_json = "1"
symphonia = "0.5"
walkdir = "2"
