[package]
name = "app_config"
version = "0.1.0"
edition = "2021"
publish = false

[dependencies]
rusqlite = "=0.40.2"
shellexpand = "=3.1.2"
serde_yaml = "=0.9.34"
serde_json = "=1.0.151"
toml = "=1.1.6"
handlebars = "=3.5.5"
rusoto_core = { version = "=0.48.0", default-features = false, features = ["rustls"] }
rusoto_appconfig = { version = "=0.48.0", default-features = false, features = ["rustls"] }
rusoto_ssm = { version = "=0.48.0", default-features = false, features = ["rustls"] }
tokio = { version = "=1.53.2", features = ["rt", "rt-multi-thread", "process", "fs", "io-util", "macros"] }
clap = "=2.34.0"
exitcode = "=1.1.2"
