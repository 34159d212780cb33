[package]
name = "amble"
version = "0.1.0"
edition = "2021"
publish = false

[dependencies]
anyhow = "*"
chrono = { version = "*", default-features = false, features = ["clock"] }
clap = { version = "*", features = ["derive"] }
gitignores = "*"
image = { version = "*", default-features = false, features = ["png", "ico"] }
inquire = "*"
lice = "*"
prettytable-rs = "*"
ptree = "*"
regex = "*"
reqwest = { version = "*", default-features = false, features = ["blocking"] }
tokio = { version = "*", features = ["rt-multi-thread"] }
tracing = "*"
tracing-subscriber = "*"
whoami = "*"
