[package]
name = "border_glass"
version = "0.1.0"
edition = "2021"
publish = false

# The feature `gnustep-1-7` lets these crates compile off Apple platforms. Leave it out when
# building for macOS.
[dependencies]
objc2 = { version = "=0.6.5", features = ["gnustep-1-7"] }
objc2-app-kit = { version = "=0.3.2", features = ["gnustep-1-7"] }
objc2-foundation = { version = "=0.3.2", features = ["gnustep-1-7"] }
