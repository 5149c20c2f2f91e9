[package]
name = "sdr_iq_file_reader"
version = "0.1.0"
edition = "2021"
publish = false

[dependencies]
bon = "*"
num-complex = "*"
