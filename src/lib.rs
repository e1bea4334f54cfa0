pub mod resource;
pub mod s3tc;
pub mod uniform;
pub mod shader;
pub mod gpu;
pub mod lightmaps;
pub mod pipeline;
pub mod text;
