[package]
name = "arcticoj"
version = "0.1.0"
edition = "2021"
publish = false

[dependencies]
argon2 = { version = "0.5", features = ["std"] }
regex = "1"
serde = { version = "1", features = ["derive"] }
serde_json = "1"
cuid2 = "*"
pasetors = "*"
postcard = { version = "1", features = ["alloc"] }
rustix = { version = "1", features = ["fs", "process", "mount", "net", "system", "thread", "stdio", "runtime"] }
memfd = "*"
which = "*"
chrono = "0.4"
libc = "0.2"
tracing = "0.1"
tracing-subscriber = "0.3"
scopeguard = "1"
thiserror = "*"
miette = "7"
knus = "*"
figment = { version = "0.10", features = ["env"] }
clap = { version = "4", features = ["derive"] }
dashmap = "*"
tokio = { version = "1", features = ["rt-multi-thread", "macros"] }
cgroups-rs = "*"
async-trait = "0.1"
