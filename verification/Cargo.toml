[package]
name = "synthesizer"
version = "0.1.0"
edition = "2021"
publish = false

[dependencies]
snarkvm-circuit = "=0.14.6"
snarkvm-console-program = "=0.14.6"
