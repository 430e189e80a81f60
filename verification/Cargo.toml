[package]
name = "etherdream_emulator"
version = "0.1.0"
edition = "2021"
publish = false

[dependencies]
byteorder = "1"
clap = "2"
ilda = "*"
net2 = "0.2"
piston = "*"
piston2d-graphics = "*"
piston2d-glium_graphics = "*"
