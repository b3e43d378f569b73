[package]
name = "compio_driver"
version = "0.1.0"
edition = "2021"
publish = false

[dependencies]
io-uring = "=0.7.15"
libc = "=0.2.191"
rustix = { version = "=1.1.6", features = ["fs", "net", "pipe", "std"] }
socket2 = { version = "=0.6.5", features = ["all"] }
polling = "=3.11.0"
compio-buf = "=0.8.3"
linux-raw-sys = { version = "=0.12.1", features = ["io_uring", "general"] }
windows-sys = { version = "=0.61.2", features = ["Win32_Foundation", "Win32_Networking_WinSock", "Win32_Storage_FileSystem", "Win32_System_IO", "Win32_System_Pipes"] }
