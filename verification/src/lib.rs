//! Verified core of an interactive triangulated-mesh viewer.
//!
//! The library covers the three parts of the viewer with real logic: deriving
//! a wireframe edge buffer from a triangle soup, the orbit-camera state
//! machine driven by discrete input events, and the fixed three-pass draw
//! plan of each frame. Vertex coordinates are carried as `u32` bit patterns
//! of 32-bit floats; the code here only moves them, never does arithmetic on
//! them, so the bit patterns are exact. Camera angles and the zoom factor are
//! held in fixed-point micro-units (one millionth of a radian, one millionth
//! of a zoom unit), which makes every step and clamp of the controller exact.
//! Windowing, file parsing and the graphics calls themselves stay outside.

pub mod camera;
pub mod geometry;
pub mod renderer;
