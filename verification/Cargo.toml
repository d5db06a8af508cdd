[package]
name = "mes"
version = "0.1.0"
edition = "2021"
publish = false

[dependencies]
type-variance = "*"
num-traits = "0.2"
void = "1"
nalgebra = "0.32"
syn = { version = "1", features = ["full"] }
quote = "1"
proc-macro2 = "1"
darling = "0.14"
itertools = "0.10"
