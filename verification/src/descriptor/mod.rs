//! Descriptors: the resources that a shader reaches through its bindings.
pub mod descriptor;
pub mod pipeline_layout;
