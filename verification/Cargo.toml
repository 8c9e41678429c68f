[package]
name = "blog_core"
version = "0.1.0"
edition = "2021"
publish = false

[dependencies]
actix-web = "=1.0.9"
# Nothing here uses chrono: the line holds it at the last version whose
# Duration is the one of time 0.1, which actix-http 0.2 expects.
chrono = "=0.4.19"
diesel = { version = "=1.4.8", features = ["sqlite", "r2d2"] }
futures = "=0.1.31"
serde = { version = "=1.0.229", features = ["derive"] }
