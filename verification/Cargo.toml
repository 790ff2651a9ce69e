[package]
name = "quicktag"
version = "0.1.0"
edition = "2021"
publish = false

[dependencies]
tiger-pkg = "=0.21.0"
rustc-hash = "=2.1.3"
regex = "=1.13.1"
binrw = "=0.15.2"
bytemuck = { version = "=1.25.2", features = ["extern_crate_alloc"] }
anyhow = "=1.0.104"
log = "=0.4.35"
itertools = "=0.15.0"
zstd = "=0.14.3"
bincode = "=2.0.1"
clap = { version = "=4.6.7", features = ["derive"] }
