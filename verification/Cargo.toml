[package]
name = "n_rt_onl"
version = "0.1.0"
edition = "2021"
publish = false

[dependencies]
anyhow = "*"
aya = "*"
aya-log = "*"
fastping-rs = "*"
libc = "*"
log = "*"
pnet = "*"
serde = { version = "*", features = ["derive"] }
tokio = { version = "*", features = ["macros", "rt-multi-thread", "sync", "time"] }
tracing-subscriber = "*"
