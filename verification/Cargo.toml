[package]
name = "octane"
version = "0.1.0"
edition = "2021"
publish = false

[dependencies]
rand = "=0.8.8"
rand_distr = "=0.4.3"
serde = { version = "=1.0.229", features = ["derive"] }
serde_json = "=1.0.154"
thiserror = "=1.0.69"
tokio = { version = "=1.54.1", features = ["sync", "rt", "macros", "time"] }
async-trait = "=0.1.92"
tracing = "=0.1.44"
bincode = "=1.3.3"
rayon = "=1.12.0"
crossbeam = "=0.8.5"
memmap2 = "=0.9.12"
candle-core = "=0.11.1"
candle-nn = "=0.11.1"
pyo3 = "0.26"
