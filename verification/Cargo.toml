[package]
name = "btf"
version = "0.5.0"
edition = "2021"
publish = false

[dependencies]
byteorder = "1"
untrusted = "*"
proc-macro2 = "1"
quote = "1"
check_keyword = "*"
unicode-ident = "1"
serde = { version = "1", features = ["derive"] }
serde_json = "1"
serde_yaml = "*"
thiserror = "1"
anyhow = "1"
log = "0.4"
pretty_env_logger = "*"
structopt = "0.3"
memmap = "0.7"
either = "1"
