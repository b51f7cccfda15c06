//! Integer core of a real-time voxel renderer: volume generation, camera
//! state, fixed-point projection, shading and the render-loop state machine.
pub mod fixed;
pub mod volume;
pub mod camera;
pub mod project;
pub mod shade;
pub mod render;
