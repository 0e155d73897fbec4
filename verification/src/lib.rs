//! Synthesis of wrapper bindings for a native library: the model of the
//! library's API, the passes that complete and partition it, the model of
//! the generated wrapper, and the runtime abstractions the wrapper uses.

pub mod duplicate;
pub mod text;
pub mod cpp_type;
pub mod cpp_method;
pub mod cpp_data;
pub mod ownership;
pub mod iterator;
pub mod cpp_ffi_generator;
pub mod rust_type;
pub mod rust_info;
pub mod captions;
pub mod rust_generator;
pub mod crate_writer;
pub mod manifest;
pub mod launcher;
