[package]
name = "particles"
version = "0.1.0"
edition = "2021"
publish = false

[dependencies]
rand = "0.7"
png = "0.16"
gl = "0.14"
gl_loader = "0.1"
libc = "0.2"
num = "0.2"
num-traits = "0.2"
num-derive = "0.3"
x11 = { version = "2", features = ["xlib", "glx", "xinerama"] }
winapi = { version = "0.3", features = ["basetsd", "minwindef", "windef", "windowsx", "libloaderapi", "wingdi", "winuser", "handleapi", "memoryapi", "winnt", "fileapi", "errhandlingapi"] }
