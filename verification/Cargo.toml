[package]
name = "newtabgen"
version = "0.1.0"
edition = "2021"
publish = false

[dependencies]
sha1 = "0.10"
data-encoding = "2"
image = "0.24"
tracing = "0.1"
serde = { version = "1", features = ["derive"] }
serde_json = "1"
clap = { version = "4", features = ["derive"] }
thiserror = "1"
tokio = { version = "1", features = ["rt-multi-thread", "macros", "fs", "time"] }
reqwest = { version = "0.11", default-features = false }
git2 = { version = "0.18", default-features = false }
tera = { version = "1", default-features = false }
rsass = "*"
minify-html = "*"
tracing-subscriber = "0.3"
dirs = "5"
webbrowser = "*"
url = "2"
rand = "0.8"
lipsum = "*"
