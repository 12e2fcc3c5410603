//! A field of falling snow, simulated over fixed-point numbers.
//!
//! The library makes the particles of a snowfall from a configuration, the
//! shape of the canvas and random draws; advances a clock and a wind once per
//! frame; and keeps the parameters of a point-sprite shader in step with both.
//! It draws nothing and reads nothing: a host hands it canvas sizes,
//! timestamps and draws as plain values and takes arrays and parameters back.

pub mod clock;
pub mod config;
pub mod constants;
pub mod fixed;
pub mod kinematics;
pub mod particles;
pub mod renderer;
pub mod shaders;
pub mod viewport;
pub mod wind;

pub use config::SnowConfig;
pub use renderer::RenderResult;
pub use renderer::SnowfallShader;
pub use wind::WindState;
