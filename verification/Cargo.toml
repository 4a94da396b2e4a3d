[package]
name = "socket2"
version = "0.3.19"
edition = "2021"
publish = false

[dependencies]
winapi = { version = "0.3.9", features = ["handleapi", "in6addr", "inaddr", "minwindef", "ntdef", "processthreadsapi", "winbase", "winsock2", "ws2def", "ws2ipdef", "ws2tcpip"] }
