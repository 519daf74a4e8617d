[package]
name = "sampling_atomics"
version = "0.1.0"
edition = "2021"
publish = false

[dependencies]
plotly = "0.8"
rand = "0.8"
rand_distr = "0.4"
tokio = { version = "1", features = ["rt-multi-thread", "macros", "time"] }
tracing = "0.1"
tracing-subscriber = "0.3"
