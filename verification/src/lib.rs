//! Driver for a three-axis magnetometer reached over a register-addressed
//! serial bus.

pub mod bus;
pub mod driver;
pub mod mock;
pub mod protocol;
pub mod registers;
pub mod sampling;

pub use bus::BusTransport;
pub use bus::Transaction;
pub use driver::DriverError;
pub use driver::Mag3110;
pub use driver::POLL_LIMIT;
pub use driver::decode_axis;
pub use driver::decode_temperature;
pub use mock::BusFault;
pub use mock::BusRecord;
pub use mock::ScriptStep;
pub use mock::ScriptedBus;
pub use registers::ADDRESS;
pub use registers::Register;
pub use sampling::DataRate;
pub use sampling::Oversampling;
pub use sampling::encode;
