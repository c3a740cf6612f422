[package]
name = "iommufd_ioctls"
version = "0.1.0"
edition = "2021"
publish = false

[dependencies]
vmm-sys-util = "*"
iommufd-bindings = "*"
