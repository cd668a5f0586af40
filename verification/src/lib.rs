//! Shape descriptors for tensors handed to an inference runtime, and the
//! ordered linker directives that couple a build to the runtime's native
//! libraries.

pub mod dims;
pub mod link;
pub mod plan;
