[package]
name = "prompt_relay"
version = "0.1.0"
edition = "2021"
publish = false

[dependencies]
string_template = "=0.2.1"
clap = { version = "=4.6.7", features = ["derive"] }
eyre = "=0.6.14"
color-eyre = { version = "=0.6.5", default-features = false }
indicatif = "=0.17.11"
llm = "=0.1.1"
log = "=0.4.34"
owo-colors = "=3.5.0"
pretty_env_logger = "=0.5.0"
rand = "=0.8.8"
smol = "=1.3.0"
