//! Verified core of a scaffolding tool for AI/ML research projects: the
//! project configuration, the directory layout, the text of every generated
//! file, the CUDA/PyTorch compatibility rules and the `uv` install plan.
//!
//! Reading and writing files, prompting and running `uv` are left to the
//! program around this library. The contents of the project, the choices
//! offered and accepted, and the commands to run are decided here; the
//! order of the prompts and the default taken when a yes/no prompt fails
//! are the program's.

pub mod config;
pub mod install;
pub mod scaffold;
pub mod setup;
pub mod template_laws;
pub mod templates;
pub mod text;

pub use config::{ConfigView, Os, ProjectConfig};
pub use setup::compatible_cuda;
