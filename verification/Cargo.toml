[package]
name = "cobalt"
version = "0.1.0"
edition = "2021"
publish = false

[dependencies]
rseip = "=0.3.1"
aga8 = "=0.4.0"
tokio = { version = "=1.53.2", features = ["macros", "rt-multi-thread", "time"] }
tokio-modbus = "=0.17.0"
tokio-serial = "=5.5.0"
futures-util = "=0.3.34"
clap = { version = "=4.6.7", features = ["derive"] }
colored = "=3.1.1"
chrono = "=0.4.45"
anyhow = "=1.0.104"
