[package]
name = "cita_trie_db"
version = "0.1.0"
edition = "2021"
publish = false

[dependencies]
rocksdb = "=0.25.0"
cita_trie = "=0.1.6"
