[package]
name = "cell_front"
version = "0.1.0"
edition = "2021"
publish = false

[dependencies]
lasso = { version = "=0.7.3", features = ["multi-threaded"] }
anyhow = "=1.0.104"
codespan-reporting = "=0.9.5"
pico-args = "=0.5.0"
proc-macro2 = "=1.0.107"
quote = "=1.0.47"
