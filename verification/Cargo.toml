[package]
name = "swrepl"
version = "0.1.0"
edition = "2021"
publish = false

[dependencies]
saltwater = { version = "=0.10.0", default-features = false, features = ["jit"] }
codespan = "=0.9.5"
rustyline = "=18.0.1"
dirs-next = "=2.0.0"
