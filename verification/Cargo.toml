[package]
name = "smashgg_query"
version = "0.1.0"
edition = "2021"
publish = false

[dependencies]
miette = "=5.10.0"
serde_json = "=1.0.154"
thiserror = "=1.0.69"
tracing = "=0.1.44"
tracing-subscriber = "=0.3.23"
ureq = "=2.12.1"

[dev-dependencies]
envy = "=0.4.2"
serde = "=1.0.229"
