[package]
name = "odbc_secrets_cli"
version = "0.1.0"
edition = "2021"
publish = false

[dependencies]
clap = { version = "*", features = ["derive", "env"] }
clap-stdin = "*"
clap-verbosity-flag = "*"
odbc-api = "*"
simple_logger = "*"
strum_macros = "*"
tokio = { version = "*", features = ["macros", "rt-multi-thread"] }
vaultrs = "*"
