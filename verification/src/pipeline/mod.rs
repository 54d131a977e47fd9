//! Pipelines: the objects that tell the GPU how to run shaders.
pub mod compute_pipeline;
pub mod shader;
