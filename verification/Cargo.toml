[package]
name = "calculator"
version = "0.1.0"
edition = "2021"
publish = false

[dependencies]
meval = "=0.2.0"
imgui = "=0.12.0"
imgui-glium-renderer = "=0.13.0"

[dependencies.glium]
version = "=0.35.0"
default-features = false
features = ["glutin_backend", "simple_window_builder"]

[dependencies.glutin]
version = "0.32"
default-features = false
features = ["egl", "glx", "x11"]

[dependencies.glutin-winit]
version = "0.5"
default-features = false
features = ["egl", "glx", "x11"]

[dependencies.winit]
version = "0.30"
default-features = false
features = ["x11", "rwh_06"]
