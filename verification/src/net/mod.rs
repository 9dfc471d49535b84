//! What clients ask for.

pub mod bedrock;
pub mod java;
