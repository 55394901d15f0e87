//! Escrow-based payroll disbursement and continuous payment streaming.
//!
//! An employer opens a payroll for a list of recipients, funds it, and
//! releases it; a sender starts a stream that accrues to its receiver second
//! by second; an employer keeps a roster of employees. Every rule of these
//! lifecycles, and the arithmetic of deposits and accrual, is stated in the
//! contracts of this library and proved of its code.
//!
//! - [`payroll`], [`stream`] and [`employee`] hold one payroll, one stream and
//!   one roster entry each, with the operations on them.
//! - [`breaker`] decides who may switch the circuit breaker.
//! - [`contract`] holds the engine that keeps all of them under sequential
//!   identifiers and collects the [`event`]s that its operations emit.
//!
//! The library performs no authentication, reads no clock and stores nothing
//! durably: each operation takes the identity of its caller and the current
//! time as arguments, and whoever drives the library vouches for both.

pub mod address;
pub mod breaker;
pub mod contract;
pub mod employee;
pub mod error;
pub mod event;
pub mod payroll;
pub mod stream;

pub use address::Address;
pub use contract::{ContractState, PayrollEscrowContract};
pub use employee::{Employee, EmployeeStatus};
pub use error::Error;
pub use event::Event;
pub use payroll::{Payment, PayrollData, PayrollStatus, PayrollView, Recipient, ScheduleType};
pub use stream::StreamData;
