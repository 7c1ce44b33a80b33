[package]
name = "sql_logic_test"
version = "0.1.0"
edition = "2021"
publish = false

[dependencies]
sqlite = "*"
sqllogictest = "*"
glob = "*"
