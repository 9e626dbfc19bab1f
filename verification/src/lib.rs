//! Driver for the AK09915 triaxial magnetometer on a register-oriented
//! serial bus.
//!
//! The driver translates high-level operations (reset, mode change,
//! readiness polling, sample read, factory self-test) into fixed sequences
//! of byte-level register transactions, honoring the chip's settling-time
//! requirements. The bus itself is abstracted behind the [`bus::Transport`]
//! capability, which records every transaction in a ghost transcript; the
//! contracts of the driver's operations pin down exactly which transactions
//! each operation issues and how the returned values relate to the bytes
//! that came back over the bus.

pub mod bus;
pub mod codec;
pub mod driver;
pub mod regs;

pub use bus::BusOp;
pub use bus::Transport;
pub use driver::Ak09915;
pub use regs::Mode;
