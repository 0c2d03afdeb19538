[package]
name = "con"
version = "0.1.0"
edition = "2021"
publish = false

[dependencies]
anyhow = "1"
caps = "0.5"
cgroups-rs = "0.3"
clap = { version = "3", features = ["derive"] }
flate2 = "1"
futures = "0.3"
nix = "0.26"
oci-spec = "*"
tar = "0.4"
tokio = { version = "1", features = ["rt-multi-thread", "fs"] }
