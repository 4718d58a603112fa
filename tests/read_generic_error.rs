use std::collections::HashMap;

use device_register::{
    EditableRegister, ReadRegister, ReadableRegister, Register, RegisterInterface,
    WritableRegister,
};

const REGISTER1: u8 = 0x01;
const REGISTER2: u8 = 0x02;

#[derive(Debug, Clone, Copy, PartialEq, Eq)]
pub enum Error<E> {
    Bus(E),
}

#[derive(Debug, Clone, Copy)]
pub struct Register1(pub u16);
impl Register for Register1 {
    type Address = u8;
    const ADDRESS: u8 = REGISTER1;
}
impl ReadableRegister for Register1 {}
impl EditableRegister for Register1 {}
impl WritableRegister for Register1 {}
impl From<Register1> for u16 {
    fn from(val: Register1) -> Self {
        val.0
    }
}
impl From<u16> for Register1 {
    fn from(val: u16) -> Self {
        Register1(val)
    }
}

#[derive(Debug, Clone, Copy)]
pub struct Register2(pub u16);
impl Register for Register2 {
    type Address = u8;
    const ADDRESS: u8 = REGISTER2;
}
impl ReadableRegister for Register2 {}
impl EditableRegister for Register2 {}
impl WritableRegister for Register2 {}
impl From<Register2> for u16 {
    fn from(val: Register2) -> Self {
        val.0
    }
}
impl From<u16> for Register2 {
    fn from(val: u16) -> Self {
        Register2(val)
    }
}

pub struct DeviceDriver {
    pub registers: HashMap<u8, [u8; 2]>,
}

impl DeviceDriver {
    pub fn new() -> Self {
        let mut registers = HashMap::new();
        registers.insert(REGISTER1, [0, 0]);
        registers.insert(REGISTER2, [0, 0]);
        Self { registers }
    }
}

impl<R> RegisterInterface<R, u8> for DeviceDriver
where
    R: Register<Address = u8> + Clone + From<u16>,
    u16: From<R>,
{
    type Error = Error<u8>;

    fn read_register(&mut self) -> Result<R, Self::Error> {
        let bytes = self.registers.get(&(R::ADDRESS)).ok_or(Error::Bus(1))?;
        let reg = u16::from_be_bytes(*bytes);
        Ok(reg.into())
    }

    fn write_register(&mut self, register: &R) -> Result<(), Self::Error> {
        let bytes: u16 = register.clone().into();
        self.registers.insert(R::ADDRESS, bytes.to_be_bytes());
        Ok(())
    }
}

#[test]
fn read_generic_error() {
    let mut device = DeviceDriver::new();
    device.registers.insert(REGISTER1, 0x42_u16.to_be_bytes());
    device.registers.insert(REGISTER2, 0x45_u16.to_be_bytes());

    let reg1: Register1 = device.read().unwrap();
    let reg2: Register2 = device.read().unwrap();

    assert_eq!(u16::from(reg1), 0x42);
    assert_eq!(u16::from(reg2), 0x45);
}

#[test]
fn read_reports_the_transport_error_unchanged() {
    let mut device = DeviceDriver::new();
    device.registers.remove(&REGISTER2);

    let reg1: Result<Register1, Error<u8>> = device.read();
    let reg2: Result<Register2, Error<u8>> = device.read();

    assert_eq!(reg1.unwrap().0, 0);
    assert_eq!(reg2.unwrap_err(), Error::Bus(1));
}
