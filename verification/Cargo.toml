[package]
name = "nur"
version = "0.1.0"
edition = "2021"
publish = false

[dependencies]
async-trait = "*"
eframe = { version = "=0.35.0", default-features = false, features = ["default_fonts", "glow", "x11"] }
egui = "=0.35.0"
fatfs = "*"
gpt = "*"
image = { version = "*", default-features = false, features = ["png"] }
rfd = "*"
serde = { version = "*", features = ["derive"] }
tokio = { version = "*", features = ["rt", "rt-multi-thread"] }
zbus = "5"
