[package]
name = "svg_pan"
version = "0.1.0"
edition = "2021"
publish = false

[dependencies]
yew = { version = "=0.21.0", features = ["csr"] }
web-sys = { version = "=0.3.106", features = ["Event", "EventTarget", "MouseEvent", "PointerEvent", "SvgElement", "SvgGraphicsElement", "SvgsvgElement", "SvgPoint", "SvgMatrix"] }
