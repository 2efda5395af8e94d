[package]
name = "narthex_web"
version = "0.1.0"
edition = "2021"
publish = false

[dependencies]
ansi_term = "*"
anyhow = "*"
log = "*"
narthex_engine_trait = "*"
serde = "*"
serde_json = "*"
web-view = "*"
