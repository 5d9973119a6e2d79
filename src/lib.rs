//! Access to the PLCnext Global Data Space and to the Axioline bus master:
//! port transactions, bus master control and fault-code diagnostics.

pub mod cycle;
pub mod diagnostic;
pub mod error;
pub mod fault_table;
pub mod gds;
pub mod lifecycle;
pub mod master;
pub mod sim;
