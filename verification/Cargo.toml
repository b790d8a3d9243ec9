[package]
name = "diesel_mssql"
version = "0.1.0"
edition = "2021"
publish = false

[dependencies]
diesel = "2"
tiberius = { version = "0.12", default-features = false, features = ["tds73"] }
