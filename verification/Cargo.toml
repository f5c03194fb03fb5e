[package]
name = "oxiwiki"
version = "0.1.0"
edition = "2021"
publish = false

[dependencies]
oxiri = "0.3"
url = "2"
http-types = "2"
oxigraph = { version = "=0.2.5", default-features = false }
argh = "0.1"
async-std = "1"
async-h1 = "2"
