[package]
name = "vnext"
version = "0.1.0"
edition = "2021"
publish = false

[dependencies]
git2 = "*"
semver = "*"
regex = "*"
url = "*"
clap = { version = "*", features = ["derive"] }
log = "*"
fern = "*"
colored = "*"
reqwest = { version = "*", default-features = false, features = ["blocking", "json"] }
serde = { version = "*", features = ["derive"] }
serde_json = "*"

[dev-dependencies]
tempfile = "*"
