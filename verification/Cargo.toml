[package]
name = "password_profile"
version = "1.0.0"
edition = "2021"
publish = false

[dependencies]
bcrypt = "*"
md5 = "0.7"
siphasher = "1"
pgrx = { version = "0.16.1", default-features = false, features = ["pg17"] }
