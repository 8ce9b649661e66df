[package]
name = "kudos_api"
version = "0.1.0"
edition = "2021"
publish = false

[dependencies]
url = "2"
chrono = { version = "0.4", features = ["serde"] }
serde = { version = "1", features = ["derive"] }
serde_derive = "1"
serde_json = "1"
serde_path_to_error = "0.1"
thiserror = "1"
warp = "0.3"
diesel = { version = "2", features = ["postgres", "chrono", "r2d2"] }
bytes = "1"
log = "0.4"
