//! Safe access layer over a native visualization engine that exposes a flat,
//! C-style interface of opaque handles, counted buffers and sentinel-terminated
//! arrays.
//!
//! The engine itself (rendering, scene-graph semantics, mesh math) is an
//! external collaborator; this crate covers the binding layer that makes the
//! foreign interface usable and safe:
//!
//! * marshaling of text and arrays across the boundary (null-terminated
//!   buffers, counted two-call accessors, sentinel-terminated lists), with the
//!   paired release call accounted for on every path;
//! * the ownership hierarchy: one root [`engine::Engine`] handle that owns the
//!   foreign instance, borrowed views (window, camera, scene, options,
//!   interactor) whose lifetime is tied to a live borrow of the root, and
//!   independently owned values such as [`image::Image`];
//! * the command trampoline: host callbacks registered under an action name,
//!   reached from the foreign side through an opaque context token;
//! * the input-binding text protocol: parse, format, equality and a total
//!   order over [`binding::InteractionBind`] values.
//!
//! The foreign engine's observable state (option store, lights, window
//! parameters, registries) is modeled as plain data, so every decision this
//! layer makes is stated in contracts and machine-checked.

pub mod binding;
pub mod bytes;
pub mod camera;
pub mod codec;
pub mod engine;
pub mod image;
pub mod interactor;
pub mod kvstore;
pub mod options;
pub mod scene;
pub mod text;
pub mod window;

pub use binding::InteractionBind;
pub use binding::InteractionBindModifierKeys;
pub use camera::Camera;
pub use camera::CameraState;
pub use engine::Engine;
pub use engine::EngineBackend;
pub use engine::EngineContext;
pub use engine::F3DLibInfo;
pub use engine::F3DModuleInfo;
pub use engine::F3DReaderInfo;
pub use image::Image;
pub use image::ImageChannelType;
pub use image::ImageFormat;
pub use interactor::BindingDocumentation;
pub use interactor::Interactor;
pub use options::Options;
pub use scene::F3DLightState;
pub use scene::F3DLightType;
pub use scene::F3DMesh;
pub use scene::Scene;
pub use text::MarshalError;
pub use window::Window;
