//! Driver for the Microchip MCP23X17 sixteen-bit GPIO expander.
//!
//! The chip splits its pins into two eight-bit ports, each with its own copy
//! of an eleven-register map. In the layout this driver uses, a register of
//! port A sits at its base offset and the same register of port B at the base
//! offset with `0x10` or-ed in. The driver keeps the selected port in memory
//! and re-applies it to every access, so selecting a port is free of bus
//! traffic.
//!
//! The bus itself stands behind the [`Transport`] trait: a blocking write and
//! a blocking write-then-read, each of which either completes or fails with
//! the transport's own error. Every driver operation issues exactly one such
//! transaction and returns the transport's error unchanged on failure; the
//! contracts state this over the transport's ghost transaction history.
//!
//! [`MockChip`] is a deterministic in-memory transport for tests: it keeps a
//! register file, records every transaction, and can be told to fail.

pub mod config;
pub mod mock;
pub mod transport;

mod driver;

pub use config::Config;
pub use driver::Mcp23x17;
pub use driver::Port;
pub use driver::ADDRESS;
pub use mock::BusEvent;
pub use mock::MockChip;
pub use mock::MockError;
pub use transport::Transaction;
pub use transport::Transport;
