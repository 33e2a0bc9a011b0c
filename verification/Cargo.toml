[package]
name = "chess_session"
version = "0.1.0"
edition = "2021"
publish = false

[dependencies]
serde = { version = "1", features = ["derive"] }
serde_json = "1"
glfw = "*"
gl = "*"
glm = "0.2.3"
freetype-rs = "*"
stb_image_rust = "*"
