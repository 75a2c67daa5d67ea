[package]
name = "mining_supervisor"
version = "0.1.0"
edition = "2021"
publish = false

[dependencies]
async-channel = "=1.9.0"
async-std = "=1.13.2"
binary_codec_sv2 = "=1.0.0"
binary_sv2 = "=1.0.0"
buffer_sv2 = "=1.0.0"
codec_sv2 = "=1.0.1"
common_messages_sv2 = "=1.0.0"
const_sv2 = "=1.0.0"
derive_codec_sv2 = "=1.0.0"
framing_sv2 = "=1.0.0"
futures = "=0.3.34"
job_declaration_sv2 = "=1.0.0"
key-utils = "=1.0.0"
mining_sv2 = "=1.0.0"
network_helpers_sv2 = "=2.0.0"
noise_sv2 = "=1.1.0"
pool_sv2 = "=0.1.1"
roles_logic_sv2 = "=1.0.0"
sv1_api = "=1.0.0"
template_distribution_sv2 = "=1.0.0"
tokio = { version = "=1.54.1", features = ["full"] }
toml = "=0.5.11"
tracing = "=0.1.44"
tracing-subscriber = "=0.3.23"
translator_sv2 = "=0.1.1"
