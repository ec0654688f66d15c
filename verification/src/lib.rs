//! The verified core of an MLS chat client: the console session protocol,
//! the delivery-service request plans and response checks.

pub mod text;
pub mod command;
pub mod session;
pub mod framing;
pub mod bindings;
pub mod backend;
pub mod console;
pub mod laws;
