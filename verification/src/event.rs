//! The audit events that the operations of the escrow emit.

use vstd::prelude::*;

use crate::address::Address;

verus! {

/// What a state-changing operation reports for audit. The escrow only
/// produces events; delivering them is up to whoever drives it.
#[derive(Debug, PartialEq, Eq)]
pub enum Event {
    PayrollCreated { payroll_id: u64, employer: Address, total_amount: u64 },
    PayrollDeposited { payroll_id: u64, from: Address, amount: u64, deposited_amount: u64 },
    PaymentReleased { payroll_id: u64, recipient: Address, amount: u64 },
    PayrollCompleted { payroll_id: u64, total_amount: u64 },
    PayrollCancelled { payroll_id: u64, employer: Address, deposited_amount: u64 },
    StreamStarted { stream_id: u64, from: Address, to: Address, rate_per_sec: u64, duration: u64 },
    StreamWithdrawn { stream_id: u64, to: Address, amount: u64 },
    CircuitBreakerToggled { admin: Address, active: bool },
    EmployeeAdded {
        employee_id: u64,
        employer: Address,
        wallet_address: Address,
        email: String,
        salary: u64,
    },
    EmployeeUpdated { employee_id: u64, employer: Address, salary: u64 },
    EmployeeTerminated { employee_id: u64, employer: Address },
}

impl Event {
    /// The name under which the event is published.
    pub open spec fn spec_topic(self) -> Seq<char> {
        match self {
            Event::PayrollCreated { .. } => "payroll_created"@,
            Event::PayrollDeposited { .. } => "payroll_deposited"@,
            Event::PaymentReleased { .. } => "payment_released"@,
            Event::PayrollCompleted { .. } => "payroll_completed"@,
            Event::PayrollCancelled { .. } => "payroll_cancelled"@,
            Event::StreamStarted { .. } => "stream_started"@,
            Event::StreamWithdrawn { .. } => "stream_withdrawn"@,
            Event::CircuitBreakerToggled { .. } => "circuit_breaker_toggled"@,
            Event::EmployeeAdded { .. } => "employee_added"@,
            Event::EmployeeUpdated { .. } => "employee_updated"@,
            Event::EmployeeTerminated { .. } => "employee_terminated"@,
        }
    }

    /// The name under which the event is published.
    pub fn topic(&self) -> (name: &'static str)
        ensures
            name@ == self.spec_topic(),
    {
        match self {
            Event::PayrollCreated { .. } => "payroll_created",
            Event::PayrollDeposited { .. } => "payroll_deposited",
            Event::PaymentReleased { .. } => "payment_released",
            Event::PayrollCompleted { .. } => "payroll_completed",
            Event::PayrollCancelled { .. } => "payroll_cancelled",
            Event::StreamStarted { .. } => "stream_started",
            Event::StreamWithdrawn { .. } => "stream_withdrawn",
            Event::CircuitBreakerToggled { .. } => "circuit_breaker_toggled",
            Event::EmployeeAdded { .. } => "employee_added",
            Event::EmployeeUpdated { .. } => "employee_updated",
            Event::EmployeeTerminated { .. } => "employee_terminated",
        }
    }
}

} // verus!
