//! A small real-time rendering engine core.
//!
//! The engine never talks to the graphics driver or the windowing system
//! itself. Every effect it wants is recorded as a [`Command`] on a
//! [`Device`]; the host program drains the commands, carries them out, and
//! hands what only it can know (clock readings, compile logs, uniform
//! locations, close requests) back in as plain values. What the commands do
//! to the device is described by [`DeviceState`], and the contracts of this
//! crate are stated over the commands issued and over that description.
//!
//! Floating-point data (vertex components, colours, uniform values) is
//! carried as IEEE-754 bit patterns in `u32`s.

pub mod buffer_object;
pub mod device;
pub mod engine;
pub mod enums;
pub mod error;
pub mod mesh;
pub mod mesh_renderer;
pub mod pacing;
pub mod shader_program;
pub mod system;
pub mod text;
pub mod vertex_array_object;
pub mod vertex_attrib_pointer;
pub mod window;

pub use buffer_object::BufferObject;
pub use device::{AttributeState, Call, Command, Device, DeviceState, VertexArrayState};
pub use engine::{
    Engine, EngineState, Step, CLEAR_ALPHA, CLEAR_BLUE, CLEAR_GREEN, CLEAR_RED, ENGINE_NAME,
    WINDOW_HEIGHT, WINDOW_WIDTH,
};
pub use enums::{BufferTarget, BufferUsage, DataType, Primitive, ShaderStage};
pub use error::{EngineError, Failure};
pub use mesh::{check_mesh, Mesh, COMPONENTS_PER_VERTEX};
pub use mesh_renderer::{MeshRejected, MeshRenderer};
pub use pacing::{FramePacer, FrameReport, Pace, NANOS_PER_SECOND};
pub use shader_program::{
    BuildStage, BuildStatus, BuildStep, ShaderBuild, ShaderProgram, UniformLookup, UniformValue,
};
pub use system::{Scheduler, System, SystemType, World};
pub use vertex_array_object::VertexArrayObject;
pub use vertex_attrib_pointer::{VertexAttribPointer, VertexAttribute};
pub use window::Window;
