//! Verified core of Sprite Normal Studio: the data that is handed to the GPU
//! shaders, the sizing rules of the compute passes, and the rules by which
//! sprite and normal-map files are selected.

pub mod bytes;
pub mod uniform;
pub mod dispatch;
pub mod naming;
pub mod selection;

pub use dispatch::{RenderPlan, RenderTarget};
pub use naming::{checked_normal_map_filename, generate_normal_map_filename};
pub use selection::{DecodedImage, SpriteFileSelection, TextureUpload};
pub use uniform::{CameraUniform, ViewportDataUniform};
