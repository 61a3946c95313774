//! Frame-by-frame logic of a small handheld console: a tilt-driven sprite,
//! a joystick menu and the frame buffer both are drawn into.

pub mod color;
pub mod framebuffer;
pub mod geometry;
pub mod input;
pub mod layout;
pub mod menu;
pub mod menu_laws;
pub mod sprite;
