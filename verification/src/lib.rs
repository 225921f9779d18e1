//! A live table of the Bluetooth devices around an adapter.
//!
//! Devices appear and disappear, as a discovery source announces, and each
//! known device reports changes of its attributes on a stream of its own. The
//! [`dispatcher::Dispatcher`] takes the events of all these sources one at a
//! time, keeps the [`table::DeviceTable`] of known devices and the
//! [`registry::StreamRegistry`] of admitted change streams, and says after
//! each event what its caller is to do: fetch the attributes of a device, open
//! its change stream, render the table, or stop. Waiting for the sources,
//! talking to the devices and printing are the caller's part.
//!
//! The module [`laws`] states what holds of the dispatcher over whole
//! sequences of events.

pub mod address;
pub mod attributes;
pub mod dispatcher;
pub mod filter;
pub mod laws;
pub mod registry;
pub mod row;
pub mod table;
