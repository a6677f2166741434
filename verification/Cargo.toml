[package]
name = "cocoa-way"
version = "0.1.0"
edition = "2021"
publish = false

[dependencies]
log = "0.4"
objc2 = { version = "=0.5.3", features = ["gnustep-2-1"] }
objc2-app-kit = { version = "=0.2.2", features = ["gnustep-2-1", "NSAlert", "NSApplication", "NSControl", "NSMenu", "NSMenuItem", "NSResponder", "NSSecureTextField", "NSTextField", "NSView", "NSWindow"] }
objc2-foundation = { version = "=0.2.2", features = ["gnustep-2-1", "NSGeometry", "NSObject", "NSString", "NSThread"] }
raw-window-handle = "0.6"
smithay = { version = "0.7", default-features = false, features = ["wayland_frontend"] }
tracing-subscriber = { version = "0.3", features = ["env-filter"] }
winit = { version = "0.29", default-features = false, features = ["rwh_06", "wayland", "wayland-dlopen"] }
