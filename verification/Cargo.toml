[package]
name = "tracing_etw"
version = "0.1.0"
edition = "2021"
publish = false

[dependencies]
tracing-core = "0.1"
tracing-subscriber = "0.2"
win_etw_macros = "0.1"
win_etw_provider = "0.1"
