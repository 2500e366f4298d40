//! Configuration, effect selection, shader assembly, launcher and Vulkan/GL
//! layer decisions of a post-processing layer, stated and proved with Verus.
pub mod text;
pub mod registry;
pub mod effect;
pub mod toml_doc;
pub mod config;
pub mod env;
pub mod table;
pub mod vkdevice;
pub mod vkswap;
pub mod vklayer;
pub mod shader;
pub mod launcher;
pub mod watch;
pub mod gl;
