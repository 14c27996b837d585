[package]
name = "schema_wizard"
version = "0.1.0"
edition = "2021"
publish = false

[dependencies]
ansi_term = "*"
cang-jie = "*"
clap = "*"
jieba-rs = "*"
serde_json = "*"
tantivy = "*"
