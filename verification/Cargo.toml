[package]
name = "arc_cliwallet"
version = "0.1.0"
edition = "2021"
publish = false

[dependencies]
base64 = "=0.13.1"
secp256k1 = "=0.33.1"
dirs = "=7.0.0"
rustyline = "=18.0.1"
rpassword = "=7.5.4"
structopt = "=0.3.26"
log = "=0.4.34"
simplelog = "=0.12.2"
http = "=1.5.0"
