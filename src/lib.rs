//! Rendering front-end: turns draw requests into a validated, minimal
//! sequence of low-level device commands.
pub mod target;
pub mod state;
pub mod shade;
pub mod mesh;
pub mod command;
pub mod error;
pub mod model;
pub mod renderer;
pub mod laws;
pub mod device;
