[package]
name = "gpui_text"
version = "0.1.0"
edition = "2021"
publish = false

[dependencies]
anyhow = "=1.0.104"
derive_more = { version = "2", features = ["add", "deref", "from_str"] }
fontique = "=0.11.1"
log = "=0.4.35"
palette = "=0.7.7"
parking_lot = "=0.12.5"
parley = "=0.11.1"
schemars = "=1.2.3"
serde = { version = "1", features = ["derive"] }
skrifa = "=0.44.0"
swash = "=0.2.10"

[dev-dependencies]
font-test-data = "=0.10.1"
