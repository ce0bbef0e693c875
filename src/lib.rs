//! Rendering core of a 3-D viewer: the surface and camera sizing rules, the
//! per-frame state machine, mesh assembly and draw planning, vertex-stream
//! layouts and instance packing, with hex-grid coordinates for placing
//! instances.

mod bytes;
pub mod hex;
pub mod hexagon;
pub mod surface;
pub mod model;
pub mod frame;
pub mod layout;
pub mod instance;
pub mod resource;
pub mod grid;
