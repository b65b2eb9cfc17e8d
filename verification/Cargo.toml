[package]
name = "grpm"
version = "0.1.0"
edition = "2021"
publish = false

[dependencies]
attohttpc = { version = "=0.31.0", features = ["json"] }
bincode = "=1.3.3"
bzip2 = "=0.6.1"
clap = { version = "=4.6.7", features = ["cargo"] }
flate2 = "=1.1.10"
infer = "=0.22.0"
jammdb = "=0.11.0"
octocrab = "=0.40.0"
prettytable-rs = "=0.10.0"
serde = { version = "=1.0.229", features = ["derive"] }
shellexpand = "=3.1.2"
tar = "=0.4.46"
tempfile = "=3.27.0"
text_io = "=0.1.13"
toml = "=1.1.8"
