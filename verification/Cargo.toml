[package]
name = "reach_monitor"
version = "0.1.0"
edition = "2021"
publish = false

[dependencies]
anyhow = "=1.0.104"
colored = "=3.1.1"
dotenv = "=0.15.0"
# Not used directly: holds teloxide-core's takecell below 0.1.2, whose
# minimum rustc is newer than the toolchain here.
takecell = "=0.1.1"
teloxide = { version = "=0.17.0", default-features = false, features = ["rustls"] }
tokio = { version = "=1.53.2", features = ["rt-multi-thread", "macros", "signal", "time"] }
tracing = "=0.1.44"
tracing-subscriber = { version = "=0.3.23", features = ["env-filter", "fmt", "chrono"] }
