[package]
name = "rust_web_demo"
version = "0.1.0"
edition = "2021"
publish = false

[dependencies]
config = "=0.1.3"
chrono = "=0.4.45"
rustc-serialize = "=0.3.25"
bincode = "=0.6.1"
redis = { version = "=1.8.1", default-features = false, features = ["r2d2"] }
r2d2 = "=0.8.10"
postgres = "=0.19.14"
r2d2_postgres = "=0.18.2"
iron = "=0.6.1"
router = "=0.6.0"
mount = "=0.4.0"
staticfile = "=0.5.0"
params = "=0.8.0"
handlebars-iron = "=0.29.0"
lazy_static = "=1.5.1"
log = "=0.4.35"
fern = "=0.7.1"
session = "*"
