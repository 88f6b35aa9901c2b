//! Lifecycle management for lazily loaded speech-recognition models:
//! a registry of model slots with an advisory memory budget, idle-based
//! eviction, and a CPU-load monitor that suggests cheaper model variants.

pub mod boundary;
pub mod cpu;
pub mod engine;
pub mod error;
pub mod manager;
pub mod model;
pub mod slot;
pub mod text;

pub use boundary::{WhisperHandle, WhisperResult};
pub use cpu::CpuMonitor;
pub use error::{LockKind, WhisperError};
pub use manager::WhisperManager;
pub use model::{ModelInfo, ModelSize};
pub use slot::{LoadStep, WhisperModel};
