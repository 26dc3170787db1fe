//! Construction of fused compute kernels: handle resolution, metadata
//! packing, output allocation and dispatch, plus the speech-commands audio
//! dataset's labels and decoding.
pub mod client;
pub mod handles;
pub mod kernel;
pub mod laws;
pub mod speech_commands;
