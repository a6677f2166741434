//! The decisions of a Wayland compositor that shows its clients in one native
//! window: what a menu click asks for, what a window or pointer event changes,
//! what a frame draws. Windows, sockets and pixels are handled by the program
//! around this library, which hands in plain values and performs the effects
//! that come back.

pub mod connections;
pub mod drag;
pub mod effect;
pub mod input;
pub mod menu_bar;
pub mod messages;
pub mod render;
pub mod scene;
pub mod session;
