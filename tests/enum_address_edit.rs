use std::collections::HashMap;

use device_register::{
    EditRegister, EditableRegister, ReadRegister, ReadableRegister, Register, RegisterInterface,
    WritableRegister,
};

const REGISTER1: u8 = 0x42;
const REGISTER2: u8 = 0x45;

pub enum Address {
    Register1,
    Register2,
}

impl Address {
    fn code(&self) -> u8 {
        match self {
            Address::Register1 => REGISTER1,
            Address::Register2 => REGISTER2,
        }
    }
}

#[derive(Debug, Clone, Copy)]
pub struct Register1(pub u16);
impl Register for Register1 {
    type Address = Address;
    const ADDRESS: Address = Address::Register1;
}
impl ReadableRegister for Register1 {}
impl EditableRegister for Register1 {}
impl WritableRegister for Register1 {}
impl From<Register1> for u16 {
    fn from(val: Register1) -> Self {
        val.0
    }
}
impl From<u16> for Register1 {
    fn from(val: u16) -> Self {
        Register1(val)
    }
}

#[derive(Debug, Clone, Copy)]
pub struct Register2(pub u16);
impl Register for Register2 {
    type Address = Address;
    const ADDRESS: Address = Address::Register2;
}
impl ReadableRegister for Register2 {}
impl EditableRegister for Register2 {}
impl WritableRegister for Register2 {}
impl From<Register2> for u16 {
    fn from(val: Register2) -> Self {
        val.0
    }
}
impl From<u16> for Register2 {
    fn from(val: u16) -> Self {
        Register2(val)
    }
}

pub struct DeviceDriver {
    pub registers: HashMap<u8, [u8; 2]>,
}

impl DeviceDriver {
    pub fn new() -> Self {
        let mut registers = HashMap::new();
        registers.insert(Register1::ADDRESS.code(), [0, 0]);
        registers.insert(Register2::ADDRESS.code(), [0, 0]);
        Self { registers }
    }
}

#[derive(Debug, Clone, Copy, PartialEq, Eq)]
pub enum DeviceError {
    Get,
}

impl<R> RegisterInterface<R, Address> for DeviceDriver
where
    R: Register<Address = Address> + Clone + From<u16>,
    u16: From<R>,
{
    type Error = DeviceError;

    fn read_register(&mut self) -> Result<R, DeviceError> {
        let bytes = self.registers.get(&R::ADDRESS.code()).ok_or(DeviceError::Get)?;
        let reg = u16::from_be_bytes(*bytes);
        Ok(reg.into())
    }

    fn write_register(&mut self, register: &R) -> Result<(), DeviceError> {
        let bytes: u16 = register.clone().into();
        self.registers.insert(R::ADDRESS.code(), bytes.to_be_bytes());
        Ok(())
    }
}

#[test]
fn enum_address_edit_read_edit() {
    let mut device = DeviceDriver::new();

    let some: Register1 = device.read().unwrap();
    let other: Register2 = device.read().unwrap();

    assert_eq!(u16::from(some), 0);
    assert_eq!(u16::from(other), 0);

    device
        .edit(|r: &mut Register1| {
            r.0 = 42;
        })
        .unwrap();

    device
        .edit(|r: &mut Register2| {
            r.0 = 0x42;
        })
        .unwrap();
}
