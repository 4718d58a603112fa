//! Typed access to device registers.
//!
//! A register type declares its address and the operations it permits
//! (read, write, read-modify-write); a transport that can move raw register
//! values gains exactly those operations, with contracts that follow its own.

pub mod register;
pub mod interface;
pub mod laws;
pub mod binding;

pub use register::{EditableRegister, ReadableRegister, Register, WritableRegister};
pub use interface::{apply_edit, EditRegister, ReadRegister, RegisterInterface, WriteRegister};
