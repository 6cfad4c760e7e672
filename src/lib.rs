//! The syscall layer between sandboxed WebAssembly actors and the host kernel:
//! bounds-checked guest memory, the three-way syscall outcome, the calling
//! convention that charges gas and encodes results, and the actor syscalls.
pub mod error;
pub mod control;
pub mod memory;
pub mod kernel;
pub mod bind;
pub mod actor;
