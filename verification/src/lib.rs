//! DirectDraw compatibility layer for legacy 2D games: the verified core.
//!
//! Surface pixel formats, blits with colour keys and clipping, software
//! up-scaling, configuration parsing, the frame / lock state machines and the
//! in-game settings menu. Everything that talks to the operating system lives
//! outside this crate and hands plain values in.

pub mod pixel;
pub mod grid;
pub mod blit;
pub mod surface;
pub mod scale;
pub mod text;
pub mod state;
pub mod config;
pub mod fps_limiter;
pub mod gamma;
pub mod mouse;
pub mod overlay;
pub mod media;
pub mod screenshot;
pub mod ddraw;
pub mod window;
pub mod hook;
pub mod pe;
pub mod debug;
pub mod dinput;
pub mod render;
