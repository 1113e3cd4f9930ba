[package]
name = "cedilla"
version = "0.1.0"
edition = "2021"
publish = false

[dependencies]
pulldown-cmark = "=0.13.5"
url = "=2.5.8"
regex = "=1.13.1"
base64 = "=0.23.1"
percent-encoding = "=2.3.2"
iced_highlighter = "=0.14.0"
iced_core = "=0.14.0"
tokio = { version = "*", features = ["fs"] }
reqwest = "*"
dirs = "*"
open = "*"
ignore = "*"
serde = { version = "*", features = ["derive"] }
slotmap = "*"
anywho = "*"
gotenberg_pdf = "*"
markup5ever_rcdom = "*"
