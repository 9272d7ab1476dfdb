[package]
name = "a653rs-postcard"
version = "0.4.0"
edition = "2021"
publish = false

[dependencies]
a653rs = "*"
postcard = { version = "1", default-features = false, features = ["alloc"] }
serde = { version = "1", default-features = false, features = ["alloc"] }
