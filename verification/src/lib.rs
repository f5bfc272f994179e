//! Verified core of the HyperThree native host: shader text rewriting,
//! WebGPU descriptors and command recording, module, asset and sandbox path
//! rules, project storage, registries and small numeric policies.
pub mod text;
pub mod wgsl;
pub mod paths;
pub mod bridge;
pub mod audio;
pub mod gpu;
pub mod storage;
pub mod project;
pub mod json;
pub mod commands;
pub mod asset;
pub mod draco;
pub mod modules;
pub mod formats;
pub mod pipeline;
pub mod descriptors;
