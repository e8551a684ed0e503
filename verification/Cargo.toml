[package]
name = "minigh"
version = "0.1.0"
edition = "2021"
publish = false

[dependencies]
indenter = "=0.3.4"
mime = "=0.3.17"
parse_link_header = "=0.4.1"
serde = "=1.0.229"
serde_json = "=1.0.151"
ureq = { version = "=3.4.2", features = ["json"] }
url = "=2.5.8"
