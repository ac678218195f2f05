[package]
name = "lv2se"
version = "0.1.0"
edition = "2021"
publish = false

[dependencies]
sophia = "0.6"
language-tags = "*"
rayon = "*"
num-bigint = "*"
