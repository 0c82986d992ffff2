//! The register-addressed bus: a device handle and the two transactions
//! drivers need, a block read and a single register write.
//!
//! The kernel interface behind the handle is trusted; every call selects
//! the slave address before its transaction. A block read that comes
//! back with the wrong number of bytes is reported as an error rather
//! than used.

use vstd::prelude::*;
use crate::errors::I2CError;

verus! {

#[verifier::external_type_specification]
#[verifier::external_body]
pub struct ExLinuxI2CDevice(i2cdev::linux::LinuxI2CDevice);

/// Relies on i2cdev's LinuxI2CDevice::new: opens the device node at
/// `path`; the slave address is selected later, before each transaction.
#[verifier::external_body]
fn dev_open(path: &str) -> Result<i2cdev::linux::LinuxI2CDevice, I2CError> {
    i2cdev::linux::LinuxI2CDevice::new(path, 0).map_err(
        |e| I2CError { detail: format!("{}", e) },
    )
}

/// Relies on i2cdev's set_slave_address: selects the slave the following
/// transactions address.
#[verifier::external_body]
fn dev_set_slave_address(
    d: &mut i2cdev::linux::LinuxI2CDevice,
    address: u16,
) -> Result<(), I2CError> {
    d.set_slave_address(address).map_err(|e| I2CError { detail: format!("{}", e) })
}

/// Relies on i2cdev's smbus_read_byte_data: reads the single register
/// `reg` of the selected slave.
#[verifier::external_body]
fn dev_read_byte_data(d: &mut i2cdev::linux::LinuxI2CDevice, reg: u8) -> Result<u8, I2CError> {
    i2cdev::core::I2CDevice::smbus_read_byte_data(d, reg).map_err(|e| I2CError { detail: format!("{}", e) })
}

/// Relies on i2cdev's smbus_read_i2c_block_data: reads up to `len`
/// contiguous bytes starting at `reg`; the device decides how many come
/// back, so nothing is promised of the result's length.
#[verifier::external_body]
fn dev_read_block_data(
    d: &mut i2cdev::linux::LinuxI2CDevice,
    reg: u8,
    len: u8,
) -> Result<Vec<u8>, I2CError> {
    i2cdev::core::I2CDevice::smbus_read_i2c_block_data(d, reg, len).map_err(|e| I2CError { detail: format!("{}", e) })
}

/// Relies on i2cdev's smbus_write_byte_data: writes one byte to the
/// register `reg` of the selected slave.
#[verifier::external_body]
fn dev_write_byte_data(
    d: &mut i2cdev::linux::LinuxI2CDevice,
    reg: u8,
    value: u8,
) -> Result<(), I2CError> {
    i2cdev::core::I2CDevice::smbus_write_byte_data(d, reg, value).map_err(|e| I2CError { detail: format!("{}", e) })
}

/// One transaction issued on the register bus, as the handle's ghost
/// log records it.
pub ghost enum BusOp {
    /// A successful read: `data` holds exactly the bytes that came back.
    Read { address: u8, reg: u8, len: nat, data: Seq<u8> },
    /// A read that failed or came back with the wrong number of bytes.
    ReadFailed { address: u8, reg: u8, len: nat },
    /// A successful single-register write.
    Write { address: u8, reg: u8, value: u8 },
    /// A failed single-register write.
    WriteFailed { address: u8, reg: u8, value: u8 },
}

/// A register-addressed bus handle. A ghost log records every
/// transaction issued through it, in order, so drivers can state the
/// exact register sequences their contracts promise.
pub struct I2CBus {
    device: i2cdev::linux::LinuxI2CDevice,
    log: Ghost<Seq<BusOp>>,
}

impl I2CBus {
    /// The transactions issued through this handle, in order.
    pub closed spec fn log(self) -> Seq<BusOp> {
        self.log@
    }

    /// Open the bus at the given device path.
    pub fn new(path: &str) -> (r: Result<I2CBus, I2CError>)
        ensures
            r matches Ok(b) ==> b.log() == Seq::<BusOp>::empty(),
    {
        match dev_open(path) {
            Ok(device) => Ok(I2CBus { device, log: Ghost(Seq::empty()) }),
            Err(e) => Err(e),
        }
    }

    /// Read `len` bytes starting at register `reg` of the slave at
    /// `address`: one register read for a single byte, a block read for
    /// more. A successful result holds exactly `len` bytes; a length
    /// beyond one transaction's one-byte count field is refused.
    pub fn read_bytes(&mut self, address: u8, reg: u8, len: usize) -> (r: Result<Vec<u8>, I2CError>)
        ensures
            r matches Ok(v) ==> v@.len() == len && final(self).log() == old(self).log().push(
                BusOp::Read { address, reg, len: len as nat, data: v@ },
            ),
            r is Err ==> final(self).log() == old(self).log().push(
                BusOp::ReadFailed { address, reg, len: len as nat },
            ),
            len > 255 ==> r is Err,
    {
        if let Err(e) = dev_set_slave_address(&mut self.device, address as u16) {
            self.log = Ghost(
                self.log@.push(BusOp::ReadFailed { address, reg, len: len as nat }),
            );
            return Err(e);
        }
        if len == 1 {
            match dev_read_byte_data(&mut self.device, reg) {
                Ok(byte) => {
                    let mut v: Vec<u8> = Vec::new();
                    v.push(byte);
                    self.log = Ghost(
                        self.log@.push(BusOp::Read { address, reg, len: len as nat, data: v@ }),
                    );
                    Ok(v)
                },
                Err(e) => {
                    self.log = Ghost(
                        self.log@.push(BusOp::ReadFailed { address, reg, len: len as nat }),
                    );
                    Err(e)
                },
            }
        } else {
            if len > 255 {
                self.log = Ghost(
                    self.log@.push(BusOp::ReadFailed { address, reg, len: len as nat }),
                );
                return Err(
                    I2CError {
                        detail: String::from_str("block read longer than one transaction allows"),
                    },
                );
            }
            match dev_read_block_data(&mut self.device, reg, len as u8) {
                Ok(v) => {
                    if v.len() == len {
                        self.log = Ghost(
                            self.log@.push(
                                BusOp::Read { address, reg, len: len as nat, data: v@ },
                            ),
                        );
                        Ok(v)
                    } else {
                        self.log = Ghost(
                            self.log@.push(BusOp::ReadFailed { address, reg, len: len as nat }),
                        );
                        Err(
                            I2CError {
                                detail: String::from_str("block read came back short"),
                            },
                        )
                    }
                },
                Err(e) => {
                    self.log = Ghost(
                        self.log@.push(BusOp::ReadFailed { address, reg, len: len as nat }),
                    );
                    Err(e)
                },
            }
        }
    }

    /// Write one byte to register `reg` of the slave at `address`.
    pub fn write_byte(&mut self, address: u8, reg: u8, byte: u8) -> (r: Result<(), I2CError>)
        ensures
            r is Ok ==> final(self).log() == old(self).log().push(
                BusOp::Write { address, reg, value: byte },
            ),
            r is Err ==> final(self).log() == old(self).log().push(
                BusOp::WriteFailed { address, reg, value: byte },
            ),
    {
        if let Err(e) = dev_set_slave_address(&mut self.device, address as u16) {
            self.log = Ghost(self.log@.push(BusOp::WriteFailed { address, reg, value: byte }));
            return Err(e);
        }
        match dev_write_byte_data(&mut self.device, reg, byte) {
            Ok(()) => {
                self.log = Ghost(self.log@.push(BusOp::Write { address, reg, value: byte }));
                Ok(())
            },
            Err(e) => {
                self.log = Ghost(
                    self.log@.push(BusOp::WriteFailed { address, reg, value: byte }),
                );
                Err(e)
            },
        }
    }
}

} // verus!
