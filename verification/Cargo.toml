[package]
name = "marmalade"
version = "0.1.0"
edition = "2021"
publish = false

[dependencies]
futures-channel = "*"
futures-util = "*"
glam = "*"
js-sys = "*"
meshtext = "*"
wasm-bindgen = "*"
wasm-bindgen-futures = "*"
web-sys = { version = "*", features = ["AddEventListenerOptions", "AudioBuffer", "AudioBufferSourceNode", "AudioContext", "AudioDestinationNode", "AudioNode", "AudioParam", "BinaryType", "Blob", "CssStyleDeclaration", "Document", "Element", "Event", "EventTarget", "GainNode", "HtmlCanvasElement", "HtmlElement", "HtmlImageElement", "ImageBitmap", "KeyboardEvent", "MessageEvent", "MouseEvent", "Node", "OffscreenCanvas", "OffscreenCanvasRenderingContext2d", "Performance", "UiEvent", "WebGl2RenderingContext", "WebGlBuffer", "WebGlContextAttributes", "WebGlProgram", "WebGlShader", "WebGlTexture", "WebGlUniformLocation", "WebSocket", "WheelEvent", "Window", "console"] }
