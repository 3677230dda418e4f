//! A sandboxed execution engine for untrusted WebAssembly modules.
//!
//! A call loads a module, sizes and allocates a host-owned linear memory,
//! resolves the module's imports against that memory alone, hands the input
//! over at fixed offsets, invokes the entry function and reads the result
//! back. Every decision on the way is a verified function with a contract;
//! the interpreter and the JSON decoders are reached through the trusted
//! items of `interp` and `json`, and through nothing else.

pub mod error;
pub mod sizer;
pub mod value;
pub mod params;
pub mod resolver;
pub mod interp;
pub mod json;
pub mod guest;
pub mod arena;
pub mod loader;
pub mod driver;
pub mod extractor;
pub mod engine;
pub mod enclave;

pub use engine::exec_wasm;
pub use engine::exec_wasm_with_data;
pub use engine::exec_wasm_with_data_and_schema;
pub use error::ExecWasmError;
