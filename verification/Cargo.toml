[package]
name = "slackline"
version = "0.1.0"
edition = "2021"
publish = false

[dependencies]
csv = "=1.4.0"
rayon = "=1.12.0"
serde_json = { version = "=1.0.154", features = ["preserve_order"] }
slack_api = { version = "=0.23.1", features = ["sync", "reqwest_blocking"] }
structopt = "=0.3.26"
