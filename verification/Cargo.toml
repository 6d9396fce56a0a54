[package]
name = "codd"
version = "0.1.0"
edition = "2021"
publish = false

[dependencies]
gettext-rs = { version = "*", features = ["gettext-system"] }
chrono = "*"
futures-util = "*"
sqlx = { version = "*", default-features = false, features = ["postgres", "runtime-tokio"] }
glib = "*"
gtk4 = "*"
libadwaita = "*"
relm4 = "*"
sourceview5 = "*"
