[package]
name = "patient_monitor"
version = "0.1.0"
edition = "2021"
publish = false

[dependencies]
chrono = "=0.4.45"
uuid = { version = "=1.27.0", features = ["v4"] }
actix-web = "=4.15.0"
actix-ws = "=0.3.1"
actix-cors = "=0.7.2"
tokio = { version = "=1.53.2", features = ["sync", "time", "rt-multi-thread", "macros"] }
tokio-postgres = { version = "=0.7.18", features = ["with-chrono-0_4"] }
deadpool-postgres = "=0.14.2"
serde = { version = "=1.0.229", features = ["derive"] }
serde_json = "=1.0.151"
serialport = "=4.10.1"
rand = "=0.8.8"
