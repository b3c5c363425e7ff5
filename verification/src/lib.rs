//! Register access for peripherals on an I2C-style bus.
//!
//! A peripheral on such a bus exposes numbered 8-bit registers. This crate
//! composes the single write frame that a register write needs (the register
//! index followed by the value bytes) and the write-then-read transaction
//! that a register read needs, and hands both to a caller-supplied blocking
//! transport. Every transaction a transport performs is visible in its
//! abstract history, so the contracts of [`I2cInterface`] pin down exactly
//! what is put on the bus and exactly what comes back.

mod interface;
mod mock;
mod transport;

pub use interface::lemma_write_frame;
pub use interface::write_frame;
pub use interface::I2cInterface;
pub use mock::MockI2c;
pub use transport::I2cWrite;
pub use transport::I2cWriteRead;
pub use transport::WriteReadRecord;
pub use transport::WriteRecord;
