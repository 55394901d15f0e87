//! The roster of employees that each employer keeps.

use vstd::prelude::*;

use crate::address::Address;
use crate::error::Error;

verus! {

/// Whether an employee is on the payroll of its employer.
#[derive(Copy, Clone, Debug, PartialEq, Eq, Structural)]
pub enum EmployeeStatus {
    Active,
    Inactive,
    Terminated,
}

/// One entry of an employer's roster. An entry is never deleted; removing an
/// employee marks the entry `Terminated`.
#[derive(Debug, PartialEq, Eq)]
pub struct Employee {
    pub id: u64,
    pub employer: Address,
    pub wallet_address: Address,
    pub email: String,
    pub first_name: String,
    pub last_name: String,
    pub position: String,
    pub salary: u64,
    pub currency: String,
    pub payment_schedule: String,
    pub status: EmployeeStatus,
    pub created_at: u64,
    pub updated_at: u64,
}

impl Clone for Employee {
    fn clone(&self) -> (copy: Self)
        ensures
            copy == *self,
    {
        Employee {
            id: self.id,
            employer: self.employer.clone(),
            wallet_address: self.wallet_address.clone(),
            email: self.email.clone(),
            first_name: self.first_name.clone(),
            last_name: self.last_name.clone(),
            position: self.position.clone(),
            salary: self.salary,
            currency: self.currency.clone(),
            payment_schedule: self.payment_schedule.clone(),
            status: self.status,
            created_at: self.created_at,
            updated_at: self.updated_at,
        }
    }
}

/// The entry of a new employee of `employer`, entered at time `now` under the
/// identifier `id`: `Active`, created and updated at `now`.
pub open spec fn registered_employee(
    id: u64,
    employer: Address,
    wallet_address: Address,
    email: String,
    first_name: String,
    last_name: String,
    position: String,
    salary: u64,
    currency: String,
    payment_schedule: String,
    now: u64,
) -> Employee {
    Employee {
        id,
        employer,
        wallet_address,
        email,
        first_name,
        last_name,
        position,
        salary,
        currency,
        payment_schedule,
        status: EmployeeStatus::Active,
        created_at: now,
        updated_at: now,
    }
}

/// The entries of `employees` that belong to `employer`, in their order.
pub open spec fn employees_of(employees: Seq<Employee>, employer: Seq<char>) -> Seq<Employee>
    decreases employees.len(),
{
    if employees.len() == 0 {
        Seq::empty()
    } else if employees.last().employer@ == employer {
        employees_of(employees.drop_last(), employer).push(employees.last())
    } else {
        employees_of(employees.drop_last(), employer)
    }
}

/// How many of `employees` are `Active`.
pub open spec fn active_count(employees: Seq<Employee>) -> nat
    decreases employees.len(),
{
    if employees.len() == 0 {
        0
    } else if employees.last().status is Active {
        active_count(employees.drop_last()) + 1
    } else {
        active_count(employees.drop_last())
    }
}

/// No more entries are active than there are entries.
pub proof fn lemma_active_count_bound(employees: Seq<Employee>)
    ensures
        active_count(employees) <= employees.len(),
    decreases employees.len(),
{
    if employees.len() > 0 {
        lemma_active_count_bound(employees.drop_last());
    }
}

/// An employer has no more entries than there are entries in all.
pub proof fn lemma_employees_of_bound(employees: Seq<Employee>, employer: Seq<char>)
    ensures
        employees_of(employees, employer).len() <= employees.len(),
    decreases employees.len(),
{
    if employees.len() > 0 {
        lemma_employees_of_bound(employees.drop_last(), employer);
    }
}

/// Counts the `Active` entries among `employees`.
pub fn count_active(employees: &Vec<Employee>) -> (count: u64)
    ensures
        count == active_count(employees@),
{
    let mut count: u64 = 0;
    let mut i: usize = 0;
    proof {
        assert(employees@.take(0) == Seq::<Employee>::empty());
    }
    while i < employees.len()
        invariant
            i <= employees.len(),
            count == active_count(employees@.take(i as int)),
            count <= i,
        decreases employees.len() - i,
    {
        proof {
            assert(employees@.take(i + 1).drop_last() == employees@.take(i as int));
        }
        if employees[i].status == EmployeeStatus::Active {
            count = count + 1;
        }
        i = i + 1;
    }
    proof {
        assert(employees@.take(i as int) == employees@);
    }
    count
}

impl Employee {
    /// The entry after `employer` updates it at time `now`, or the reason for
    /// which the update is refused. Each of the four fields is replaced where
    /// a new value is given and kept where none is.
    pub open spec fn updated(
        self,
        employer: Seq<char>,
        salary: Option<u64>,
        position: Option<String>,
        payment_schedule: Option<String>,
        status: Option<EmployeeStatus>,
        now: u64,
    ) -> Result<Employee, Error> {
        if self.employer@ != employer {
            Err(Error::NotAuthorized)
        } else {
            Ok(
                Employee {
                    salary: match salary {
                        Some(s) => s,
                        None => self.salary,
                    },
                    position: match position {
                        Some(p) => p,
                        None => self.position,
                    },
                    payment_schedule: match payment_schedule {
                        Some(p) => p,
                        None => self.payment_schedule,
                    },
                    status: match status {
                        Some(s) => s,
                        None => self.status,
                    },
                    updated_at: now,
                    ..self
                },
            )
        }
    }

    /// The entry after `employer` removes the employee at time `now`, or the
    /// reason for which the removal is refused.
    pub open spec fn terminated(self, employer: Seq<char>, now: u64) -> Result<Employee, Error> {
        if self.employer@ != employer {
            Err(Error::NotAuthorized)
        } else {
            Ok(Employee { status: EmployeeStatus::Terminated, updated_at: now, ..self })
        }
    }

    /// Enters a new employee of `employer` into the roster at time `now`,
    /// under the identifier `id`.
    ///
    /// The circuit breaker refuses every new entry while it is active. The
    /// entry starts `Active`, created and updated at `now`.
    pub fn register(
        breaker_active: bool,
        id: u64,
        employer: Address,
        wallet_address: Address,
        email: String,
        first_name: String,
        last_name: String,
        position: String,
        salary: u64,
        currency: String,
        payment_schedule: String,
        now: u64,
    ) -> (registered: Result<Employee, Error>)
        ensures
            breaker_active ==> registered == Err::<Employee, Error>(Error::CircuitBreakerActive),
            !breaker_active ==> registered == Ok::<Employee, Error>(
                registered_employee(
                    id,
                    employer,
                    wallet_address,
                    email,
                    first_name,
                    last_name,
                    position,
                    salary,
                    currency,
                    payment_schedule,
                    now,
                ),
            ),
    {
        if breaker_active {
            return Err(Error::CircuitBreakerActive);
        }
        Ok(
            Employee {
                id,
                employer,
                wallet_address,
                email,
                first_name,
                last_name,
                position,
                salary,
                currency,
                payment_schedule,
                status: EmployeeStatus::Active,
                created_at: now,
                updated_at: now,
            },
        )
    }

    /// Replaces the salary, position, payment schedule and status for which a
    /// new value is given, and records `now` as the time of the update.
    ///
    /// Only the employer that owns the entry may update it. A refused update
    /// leaves the entry as it was.
    pub fn update(
        &mut self,
        employer: &Address,
        salary: Option<u64>,
        position: Option<String>,
        payment_schedule: Option<String>,
        status: Option<EmployeeStatus>,
        now: u64,
    ) -> (outcome: Result<(), Error>)
        ensures
            match old(self).updated(employer@, salary, position, payment_schedule, status, now) {
                Ok(next) => outcome is Ok && *final(self) == next,
                Err(e) => outcome == Err::<(), Error>(e) && *final(self) == *old(self),
            },
    {
        if !self.employer.same(employer) {
            return Err(Error::NotAuthorized);
        }
        if let Some(new_salary) = salary {
            self.salary = new_salary;
        }
        if let Some(new_position) = position {
            self.position = new_position;
        }
        if let Some(new_schedule) = payment_schedule {
            self.payment_schedule = new_schedule;
        }
        if let Some(new_status) = status {
            self.status = new_status;
        }
        self.updated_at = now;
        Ok(())
    }

    /// Marks the employee `Terminated` and records `now` as the time of the
    /// update; the entry itself stays in the roster.
    ///
    /// Only the employer that owns the entry may remove it. A refused removal
    /// leaves the entry as it was.
    pub fn terminate(&mut self, employer: &Address, now: u64) -> (outcome: Result<(), Error>)
        ensures
            match old(self).terminated(employer@, now) {
                Ok(next) => outcome is Ok && *final(self) == next,
                Err(e) => outcome == Err::<(), Error>(e) && *final(self) == *old(self),
            },
    {
        if !self.employer.same(employer) {
            return Err(Error::NotAuthorized);
        }
        self.status = EmployeeStatus::Terminated;
        self.updated_at = now;
        Ok(())
    }
}

} // verus!
