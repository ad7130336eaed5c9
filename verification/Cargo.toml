[package]
name = "render_object"
version = "0.1.0"
edition = "2021"
publish = false

[dependencies]
js-sys = "0.3"
nalgebra-glm = "*"
web-sys = { version = "0.3", features = ["WebGlBuffer", "WebGlProgram", "WebGlRenderingContext", "WebGlUniformLocation"] }
