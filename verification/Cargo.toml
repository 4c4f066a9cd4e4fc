[package]
name = "athan"
version = "0.1.0"
edition = "2021"
publish = false

[dependencies]
icu_calendar = "=2.4.0"
time = { version = "=0.3.55", features = ["formatting", "macros"] }
serde = { version = "=1.0.229", features = ["derive"] }
serde_json = "=1.0.154"
thiserror = "=2.0.21"
directories = "=6.0.0"
argp = "=0.4.1"
minreq = { version = "=2.14.1", features = ["json-using-serde"] }
futures-channel = "=0.3.34"
iced = { version = "=0.14.0", default-features = false, features = ["tiny-skia", "x11", "thread-pool", "crisp", "web-colors"] }
tokio = { version = "=1.54.1", features = ["rt"] }
ksni = "=0.3.7"
rodio = { version = "=0.23.0", default-features = false }
winreg = "=0.56.0"
