[package]
name = "aegis_otp"
version = "0.1.0"
edition = "2021"
publish = false

[dependencies]
aegis-vault-utils = "*"
arboard = { version = "*", default-features = false }
clap = { version = "*", features = ["derive", "env"] }
color-eyre = "*"
console = "*"
ctrlc = "*"
dialoguer = { version = "*", features = ["fuzzy-select", "password"] }
serde = { version = "*", features = ["derive"] }
serde_json = "*"
urlencoding = "*"
