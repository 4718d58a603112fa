//! Register identity and permission tags.

use vstd::prelude::*;

verus! {

/// A register: one address, of an address type that transports match on.
pub trait Register {
    /// Type of the address; a transport serves the registers of one address type.
    type Address;

    /// The address of the register.
    const ADDRESS: Self::Address;
}

/// A register that may be read.
pub trait ReadableRegister: Register {}

/// A register that may be edited: read, changed in its known fields, written back.
///
/// Some registers keep reserved bits that must never be overwritten blindly;
/// editing them only rewrites what was read.
pub trait EditableRegister: Register {}

/// A register that may be written wholesale.
pub trait WritableRegister: Register {}

} // verus!
