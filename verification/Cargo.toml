[package]
name = "puttanesca"
version = "0.1.0"
edition = "2021"
publish = false

[dependencies]
select = "=0.6.1"
rusqlite = { version = "=0.40.2", features = ["bundled", "fallible_uint"] }
reqwest = { version = "=0.13.5", default-features = false }
tokio = { version = "=1.53.2", features = ["macros", "rt-multi-thread"] }
clap = { version = "=4.6.7", features = ["derive"] }
