//! Schema records of the format's first version that this crate still
//! models: texture and sampler descriptions.

pub mod texture;
