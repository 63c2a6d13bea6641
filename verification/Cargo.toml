[package]
name = "pong"
version = "0.1.0"
edition = "2021"
publish = false

[dependencies]
byte-slice-cast = "*"
glow = "*"
js-sys = "*"
wasm-bindgen = "*"
web-sys = { version = "*", features = ["AudioBuffer", "AudioBufferSourceNode", "AudioContext", "AudioDestinationNode", "AudioNode", "AudioScheduledSourceNode", "BaseAudioContext", "Document", "Element", "Event", "EventTarget", "HtmlCanvasElement", "HtmlElement", "KeyboardEvent", "Node", "UiEvent", "WebGl2RenderingContext", "Window"] }
