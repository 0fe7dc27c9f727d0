[package]
name = "opcua_session"
version = "0.1.0"
edition = "2021"
publish = false

[dependencies]
async-opcua-core = "*"
async-opcua-crypto = "*"
async-opcua-types = "*"
rsa = "*"
tracing = "*"
