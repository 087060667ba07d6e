[package]
name = "alv_metrics"
version = "0.1.0"
edition = "2021"
publish = false

[dependencies]
clap = { version = "4", features = ["derive"] }
color-eyre = "0.6"
sqlx = { version = "0.8", default-features = false, features = ["postgres", "runtime-tokio", "time", "derive"] }
tabled = "*"
time = { version = "0.3", features = ["macros", "parsing"] }
tokio = { version = "1", features = ["macros", "rt-multi-thread"] }
tracing = "0.1"
tracing-subscriber = { version = "0.3", features = ["env-filter"] }
