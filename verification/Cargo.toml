[package]
name = "im_installer"
version = "0.1.0"
edition = "2021"
publish = false

[dependencies]
privesc = "=1.2.0"
rfd = { version = "=0.17.2", default-features = false, features = ["xdg-portal"] }
vizia = { version = "=0.3.0", default-features = false, features = ["winit"] }
windows-elevate = "=0.1.0"
