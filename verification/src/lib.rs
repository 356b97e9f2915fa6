//! Component-oriented serialization: plain, verified models of the wrapper
//! components, masks, naming rules and assembly bookkeeping that convert
//! engine components into serializable flags and back.

pub mod axes;
pub mod groups;
pub mod text;
pub mod colliders;
pub mod flags;
pub mod assembly;
pub mod joints;
pub mod staging;
pub mod gltf;
pub mod urdf;
pub mod resources;
pub mod khr;
pub mod sync;
