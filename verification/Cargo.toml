[package]
name = "sharelink"
version = "0.1.0"
edition = "2021"
publish = false

[dependencies]
url = "*"
psl = "*"
reqwest = { version = "*", default-features = false, features = ["rustls-tls"] }
tokio = { version = "*", features = ["macros", "rt-multi-thread"] }
clap = { version = "*", features = ["derive"] }
backon = { version = "*", features = ["tokio-sleep"] }
ua_generator = "*"
clipboard-anywhere = "*"
copypasta-ext = "*"
