[package]
name = "rgbman"
version = "0.1.0"
edition = "2021"
publish = false

[dependencies]
anyhow = "=1.0.104"
chrono = "=0.4.45"
hidapi = { version = "=2.6.7", default-features = false, features = ["linux-native-basic-udev"] }
http-body-util = "=0.1.5"
hyper = { version = "=1.12.0", features = ["http1", "server"] }
hyper-util = { version = "=0.1.21", features = ["tokio"] }
i2c-linux = "=0.1.2"
tokio = { version = "=1.53.2", features = ["macros", "net", "rt", "sync", "time"] }
tracing = "=0.1.44"
tracing-journald = "=0.3.2"
tracing-subscriber = { version = "=0.3.23", features = ["env-filter", "fmt"] }
