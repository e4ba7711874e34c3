[package]
name = "postgres-replication"
version = "0.1.0"
edition = "2021"
publish = false

[dependencies]
bytes = "1"
memchr = "2"
postgres-protocol = "0.6"
