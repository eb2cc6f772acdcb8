[package]
name = "particle_scene"
version = "0.1.0"
edition = "2021"
publish = false

[dependencies]
wasm-bindgen = "*"
js-sys = "*"
web-sys = { version = "*", features = ["Window", "Document", "Element", "HtmlCanvasElement", "WebGlRenderingContext", "WebGlShader", "WebGlProgram", "WebGlBuffer", "WebGlUniformLocation", "console"] }
