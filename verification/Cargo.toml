[package]
name = "mpid_messaging"
version = "0.1.0"
edition = "2021"
publish = false

[dependencies]
maidsafe_utilities = "=0.19.0"
rand = "=0.8.8"
serde = { version = "=1.0.229", features = ["derive"] }
sodiumoxide = "=0.2.7"
xor_name = "=0.1.0"
