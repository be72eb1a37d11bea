//! Client-side orchestration of an FPGA management agent's staged workflows:
//! deriving remote artifact names, tracking staged uploads in a ledger, and
//! sequencing the remote calls of each workflow as a verified state machine.
//! The remote calls themselves are performed by the surrounding program,
//! which feeds each call's outcome back into the machine as an event.

pub mod accel;
pub mod bitdownload;
pub mod convert;
pub mod errors;
pub mod ledger;
pub mod naming;
pub mod overlay;
pub mod protocol;
pub mod register;
