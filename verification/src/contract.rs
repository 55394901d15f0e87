//! The escrow as one engine: the payrolls, streams and roster that it keeps,
//! the identifiers it allocates, its circuit breaker, and the events it emits.

use vstd::prelude::*;

use crate::address::Address;
use crate::breaker::switch;
use crate::employee::{
    active_count, employees_of, lemma_active_count_bound, lemma_employees_of_bound,
    registered_employee, Employee, EmployeeStatus,
};
use crate::error::Error;
use crate::event::Event;
use crate::payroll::{
    creation_refusal, opened_payroll, payments_due, total_of, Payment, PayrollData, PayrollView,
    Recipient, ScheduleType,
};
use crate::stream::{started_stream, stream_terms_invalid, StreamData};

verus! {

/// The escrow engine.
///
/// It is made with its admin and keeps everything else itself: payrolls,
/// streams and employees, each under identifiers that start at one and go up
/// by one, the circuit breaker, and the events that wait to be delivered.
/// Every operation takes the identity of its caller, which counts as
/// authenticated, and, where time matters, the current time.
pub struct PayrollEscrowContract {
    admin: Address,
    breaker_active: bool,
    payrolls: Vec<PayrollData>,
    streams: Vec<StreamData>,
    employees: Vec<Employee>,
    events: Vec<Event>,
}

/// The engine as a mathematical value. The payroll, stream or employee with
/// identifier `id` stands at index `id - 1` of its sequence.
pub struct ContractState {
    pub admin: Address,
    pub breaker_active: bool,
    pub payrolls: Seq<PayrollView>,
    pub streams: Seq<StreamData>,
    pub employees: Seq<Employee>,
    pub events: Seq<Event>,
}

impl ContractState {
    /// The payroll kept under `id`, if there is one.
    pub open spec fn payroll(self, id: u64) -> Option<PayrollView> {
        if 1 <= id <= self.payrolls.len() {
            Some(self.payrolls[id - 1])
        } else {
            None
        }
    }

    /// The stream kept under `id`, if there is one.
    pub open spec fn stream(self, id: u64) -> Option<StreamData> {
        if 1 <= id <= self.streams.len() {
            Some(self.streams[id - 1])
        } else {
            None
        }
    }

    /// The employee kept under `id`, if there is one.
    pub open spec fn employee(self, id: u64) -> Option<Employee> {
        if 1 <= id <= self.employees.len() {
            Some(self.employees[id - 1])
        } else {
            None
        }
    }

    /// Every payroll and every stream has consistent accounts, and every
    /// employee carries the identifier under which it is kept.
    pub open spec fn wf(self) -> bool {
        &&& forall|i: int| 0 <= i < self.payrolls.len() ==> (#[trigger] self.payrolls[i]).wf()
        &&& forall|i: int| 0 <= i < self.streams.len() ==> (#[trigger] self.streams[i]).wf()
        &&& forall|i: int| 0 <= i < self.employees.len() ==> (#[trigger] self.employees[i]).id == i + 1
    }
}

/// The events of a release of the payroll `payroll_id`: one payment for each
/// transfer owed, in their order, then the completion with the total.
pub open spec fn release_events(payroll_id: u64, payments: Seq<Payment>, total_amount: u64) -> Seq<
    Event,
> {
    Seq::new(
        payments.len(),
        |i: int|
            Event::PaymentReleased {
                payroll_id,
                recipient: payments[i].recipient,
                amount: payments[i].amount,
            },
    ).push(Event::PayrollCompleted { payroll_id, total_amount })
}

/// Where the entry with identifier `id` stands among `count` entries that
/// were given the identifiers from one upwards, if it is one of them.
pub open spec fn slot_of(id: u64, count: nat) -> Option<int> {
    if 1 <= id <= count {
        Some(id - 1)
    } else {
        None
    }
}

fn slot(id: u64, count: usize) -> (index: Option<usize>)
    ensures
        match slot_of(id, count as nat) {
            Some(i) => index == Some(i as usize),
            None => index is None,
        },
{
    if id == 0 || id > count as u64 {
        None
    } else {
        Some((id - 1) as usize)
    }
}

impl View for PayrollEscrowContract {
    type V = ContractState;

    closed spec fn view(&self) -> ContractState {
        ContractState {
            admin: self.admin,
            breaker_active: self.breaker_active,
            payrolls: Seq::new(self.payrolls@.len(), |i: int| self.payrolls@[i]@),
            streams: self.streams@,
            employees: self.employees@,
            events: self.events@,
        }
    }
}

impl PayrollEscrowContract {
    /// Makes the engine with its admin: the circuit breaker is off, nothing is
    /// kept yet and no event waits.
    pub fn initialize(admin: Address) -> (contract: PayrollEscrowContract)
        ensures
            contract@ == (ContractState {
                admin,
                breaker_active: false,
                payrolls: Seq::empty(),
                streams: Seq::empty(),
                employees: Seq::empty(),
                events: Seq::empty(),
            }),
            contract@.wf(),
    {
        let contract = PayrollEscrowContract {
            admin,
            breaker_active: false,
            payrolls: Vec::new(),
            streams: Vec::new(),
            employees: Vec::new(),
            events: Vec::new(),
        };
        proof {
            assert(contract@.payrolls =~= Seq::empty());
        }
        contract
    }

    /// The admin that the engine was made with.
    pub fn admin(&self) -> (admin: &Address)
        ensures
            *admin == self@.admin,
    {
        &self.admin
    }

    /// Whether the circuit breaker is active.
    pub fn circuit_breaker_active(&self) -> (active: bool)
        ensures
            active == self@.breaker_active,
    {
        self.breaker_active
    }

    /// The identifier that was given out to a payroll last; zero before the
    /// first.
    pub fn payroll_counter(&self) -> (counter: u64)
        ensures
            counter == self@.payrolls.len(),
    {
        self.payrolls.len() as u64
    }

    /// The identifier that was given out to a stream last; zero before the
    /// first.
    pub fn stream_counter(&self) -> (counter: u64)
        ensures
            counter == self@.streams.len(),
    {
        self.streams.len() as u64
    }

    /// The identifier that was given out to an employee last; zero before the
    /// first.
    pub fn employee_counter(&self) -> (counter: u64)
        ensures
            counter == self@.employees.len(),
    {
        self.employees.len() as u64
    }

    /// The events that were emitted and not taken yet, oldest first.
    pub fn events(&self) -> (events: &Vec<Event>)
        ensures
            events@ == self@.events,
    {
        &self.events
    }

    /// Hands over the events that were emitted and not taken yet, oldest
    /// first, and keeps none of them.
    pub fn take_events(&mut self) -> (events: Vec<Event>)
        ensures
            events@ == old(self)@.events,
            final(self)@ == (ContractState { events: Seq::empty(), ..old(self)@ }),
            old(self)@.wf() ==> final(self)@.wf(),
    {
        let mut events: Vec<Event> = Vec::new();
        std::mem::swap(&mut self.events, &mut events);
        proof {
            assert(self@.payrolls =~= old(self)@.payrolls);
        }
        events
    }

    /// Opens a payroll for `employer` and answers its identifier, the next one
    /// after those given out before.
    ///
    /// While the circuit breaker is active every creation is refused; an empty
    /// recipient list and a zero total are refused next, in this order. A
    /// refused creation changes nothing and uses up no identifier. Where the
    /// total is looked at, it has to fit in 64 bits.
    pub fn create_payroll(
        &mut self,
        employer: Address,
        recipients: Vec<Recipient>,
        asset: Address,
        schedule_type: ScheduleType,
        release_time: Option<u64>,
        stream_rate: Option<u64>,
        now: u64,
    ) -> (outcome: Result<u64, Error>)
        requires
            !old(self)@.breaker_active && recipients@.len() > 0 ==> total_of(recipients@)
                <= u64::MAX,
        ensures
            match creation_refusal(old(self)@.breaker_active, recipients@) {
                Some(e) => outcome == Err::<u64, Error>(e) && final(self)@ == old(self)@,
                None => outcome == Ok::<u64, Error>((old(self)@.payrolls.len() + 1) as u64)
                    && final(self)@ == (ContractState {
                    payrolls: old(self)@.payrolls.push(
                        opened_payroll(
                            employer,
                            recipients@,
                            asset,
                            schedule_type,
                            release_time,
                            stream_rate,
                            now,
                        ),
                    ),
                    events: old(self)@.events.push(
                        Event::PayrollCreated {
                            payroll_id: (old(self)@.payrolls.len() + 1) as u64,
                            employer,
                            total_amount: total_of(recipients@) as u64,
                        },
                    ),
                    ..old(self)@
                }),
            },
            old(self)@.wf() ==> final(self)@.wf(),
    {
        let notified = employer.clone();
        match PayrollData::create(
            self.breaker_active,
            employer,
            recipients,
            asset,
            schedule_type,
            release_time,
            stream_rate,
            now,
        ) {
            Err(e) => Err(e),
            Ok(payroll) => {
                let total_amount: u64 = payroll.total_amount;
                self.payrolls.push(payroll);
                let payroll_id: u64 = self.payrolls.len() as u64;
                self.events.push(
                    Event::PayrollCreated { payroll_id, employer: notified, total_amount },
                );
                proof {
                    assert(self@.payrolls =~= old(self)@.payrolls.push(payroll@));
                }
                Ok(payroll_id)
            },
        }
    }

    /// The payroll kept under `payroll_id`, as it stands.
    pub fn get_payroll_status(&self, payroll_id: u64) -> (outcome: Result<PayrollData, Error>)
        ensures
            match self@.payroll(payroll_id) {
                Some(p) => outcome is Ok && outcome->Ok_0@ == p,
                None => outcome == Err::<PayrollData, Error>(Error::PayrollNotFound),
            },
    {
        let index: usize = match slot(payroll_id, self.payrolls.len()) {
            Some(index) => index,
            None => {
                return Err(Error::PayrollNotFound);
            },
        };
        Ok(self.payrolls[index].clone())
    }

    /// Takes a deposit of `amount` from `from` into the payroll `payroll_id`.
    ///
    /// An unknown payroll is refused first; then the deposit is judged as the
    /// payroll judges it. An accepted deposit changes that payroll alone and
    /// emits one event with the new deposited amount; a refused one changes
    /// nothing.
    pub fn deposit(&mut self, payroll_id: u64, from: Address, amount: u64) -> (outcome: Result<
        (),
        Error,
    >)
        ensures
            match old(self)@.payroll(payroll_id) {
                None => outcome == Err::<(), Error>(Error::PayrollNotFound) && final(self)@ == old(
                    self,
                )@,
                Some(p) => match p.deposited(from@, amount) {
                    Err(e) => outcome == Err::<(), Error>(e) && final(self)@ == old(self)@,
                    Ok(next) => outcome is Ok && final(self)@ == (ContractState {
                        payrolls: old(self)@.payrolls.update(payroll_id - 1, next),
                        events: old(self)@.events.push(
                            Event::PayrollDeposited {
                                payroll_id,
                                from,
                                amount,
                                deposited_amount: next.deposited_amount,
                            },
                        ),
                        ..old(self)@
                    }),
                },
            },
            old(self)@.wf() ==> final(self)@.wf(),
    {
        let index: usize = match slot(payroll_id, self.payrolls.len()) {
            Some(index) => index,
            None => {
                return Err(Error::PayrollNotFound);
            },
        };
        match self.payrolls[index].deposit(&from, amount) {
            Err(e) => {
                proof {
                    assert(self@.payrolls =~= old(self)@.payrolls);
                }
                Err(e)
            },
            Ok(()) => {
                let deposited_amount: u64 = self.payrolls[index].deposited_amount;
                self.events.push(
                    Event::PayrollDeposited { payroll_id, from, amount, deposited_amount },
                );
                proof {
                    assert(self@.payrolls =~= old(self)@.payrolls.update(
                        index as int,
                        self.payrolls@[index as int]@,
                    ));
                }
                Ok(())
            },
        }
    }

    /// Releases the payroll `payroll_id` to its recipients at time `now`.
    ///
    /// An unknown payroll is refused first; then the release is judged as the
    /// payroll judges it. An accepted release marks every recipient paid,
    /// completes the payroll in one step, and emits one payment event for each
    /// recipient that was not paid before, in their order, followed by one
    /// completion event. A refused release changes nothing.
    pub fn release_payment(&mut self, payroll_id: u64, caller: Address, now: u64) -> (outcome:
        Result<(), Error>)
        ensures
            match old(self)@.payroll(payroll_id) {
                None => outcome == Err::<(), Error>(Error::PayrollNotFound) && final(self)@ == old(
                    self,
                )@,
                Some(p) => match p.released(caller@, now) {
                    Err(e) => outcome == Err::<(), Error>(e) && final(self)@ == old(self)@,
                    Ok(next) => outcome is Ok && final(self)@ == (ContractState {
                        payrolls: old(self)@.payrolls.update(payroll_id - 1, next),
                        events: old(self)@.events + release_events(
                            payroll_id,
                            payments_due(p.recipients),
                            p.total_amount,
                        ),
                        ..old(self)@
                    }),
                },
            },
            old(self)@.wf() ==> final(self)@.wf(),
    {
        let index: usize = match slot(payroll_id, self.payrolls.len()) {
            Some(index) => index,
            None => {
                return Err(Error::PayrollNotFound);
            },
        };
        match self.payrolls[index].release(&caller, now) {
            Err(e) => {
                proof {
                    assert(self@.payrolls =~= old(self)@.payrolls);
                }
                Err(e)
            },
            Ok(payments) => {
                let total_amount: u64 = self.payrolls[index].total_amount;
                proof {
                    assert(self@.payrolls =~= old(self)@.payrolls.update(
                        index as int,
                        self.payrolls@[index as int]@,
                    ));
                }
                let ghost expected = release_events(payroll_id, payments@, total_amount);
                let mut i: usize = 0;
                while i < payments.len()
                    invariant
                        i <= payments.len(),
                        expected == release_events(payroll_id, payments@, total_amount),
                        self.events@ == old(self).events@ + expected.take(i as int),
                        self.admin == old(self).admin,
                        self.breaker_active == old(self).breaker_active,
                        self.streams == old(self).streams,
                        self.employees == old(self).employees,
                        self@.payrolls == old(self)@.payrolls.update(
                            index as int,
                            old(self)@.payrolls[index as int].released(caller@, now)->Ok_0,
                        ),
                    decreases payments.len() - i,
                {
                    self.events.push(
                        Event::PaymentReleased {
                            payroll_id,
                            recipient: payments[i].recipient.clone(),
                            amount: payments[i].amount,
                        },
                    );
                    proof {
                        assert(expected.take(i + 1) =~= expected.take(i as int).push(
                            expected[i as int],
                        ));
                    }
                    i = i + 1;
                }
                self.events.push(Event::PayrollCompleted { payroll_id, total_amount });
                proof {
                    assert(expected =~= expected.take(i as int).push(expected[i as int]));
                    assert(self.events@ =~= old(self).events@ + expected);
                }
                Ok(())
            },
        }
    }

    /// Cancels the payroll `payroll_id`.
    ///
    /// An unknown payroll is refused first; then the cancellation is judged as
    /// the payroll judges it. An accepted cancellation changes the status of
    /// that payroll alone and emits one event with what was deposited by then;
    /// a refused one changes nothing.
    pub fn cancel_payroll(&mut self, payroll_id: u64, employer: Address) -> (outcome: Result<
        (),
        Error,
    >)
        ensures
            match old(self)@.payroll(payroll_id) {
                None => outcome == Err::<(), Error>(Error::PayrollNotFound) && final(self)@ == old(
                    self,
                )@,
                Some(p) => match p.cancelled(employer@) {
                    Err(e) => outcome == Err::<(), Error>(e) && final(self)@ == old(self)@,
                    Ok(next) => outcome is Ok && final(self)@ == (ContractState {
                        payrolls: old(self)@.payrolls.update(payroll_id - 1, next),
                        events: old(self)@.events.push(
                            Event::PayrollCancelled {
                                payroll_id,
                                employer,
                                deposited_amount: p.deposited_amount,
                            },
                        ),
                        ..old(self)@
                    }),
                },
            },
            old(self)@.wf() ==> final(self)@.wf(),
    {
        let index: usize = match slot(payroll_id, self.payrolls.len()) {
            Some(index) => index,
            None => {
                return Err(Error::PayrollNotFound);
            },
        };
        match self.payrolls[index].cancel(&employer) {
            Err(e) => {
                proof {
                    assert(self@.payrolls =~= old(self)@.payrolls);
                }
                Err(e)
            },
            Ok(()) => {
                let deposited_amount: u64 = self.payrolls[index].deposited_amount;
                self.events.push(
                    Event::PayrollCancelled { payroll_id, employer, deposited_amount },
                );
                proof {
                    assert(self@.payrolls =~= old(self)@.payrolls.update(
                        index as int,
                        self.payrolls@[index as int]@,
                    ));
                }
                Ok(())
            },
        }
    }

    /// Starts a stream from `from` to `to` at time `now` and answers its
    /// identifier, the next one after those given out to streams before.
    ///
    /// A zero rate, duration or total is refused, changes nothing and uses up
    /// no identifier. The circuit breaker does not stand in the way.
    pub fn start_stream(
        &mut self,
        from: Address,
        to: Address,
        rate_per_sec: u64,
        duration: u64,
        total_amount: u64,
        now: u64,
    ) -> (outcome: Result<u64, Error>)
        requires
            !stream_terms_invalid(rate_per_sec, duration, total_amount) ==> now + duration
                <= u64::MAX,
        ensures
            stream_terms_invalid(rate_per_sec, duration, total_amount) ==> outcome == Err::<
                u64,
                Error,
            >(Error::InvalidAmount) && final(self)@ == old(self)@,
            !stream_terms_invalid(rate_per_sec, duration, total_amount) ==> outcome == Ok::<
                u64,
                Error,
            >((old(self)@.streams.len() + 1) as u64) && final(self)@ == (ContractState {
                streams: old(self)@.streams.push(
                    started_stream(from, to, rate_per_sec, duration, total_amount, now),
                ),
                events: old(self)@.events.push(
                    Event::StreamStarted {
                        stream_id: (old(self)@.streams.len() + 1) as u64,
                        from,
                        to,
                        rate_per_sec,
                        duration,
                    },
                ),
                ..old(self)@
            }),
            old(self)@.wf() ==> final(self)@.wf(),
    {
        let sender = from.clone();
        let receiver = to.clone();
        match StreamData::start(from, to, rate_per_sec, duration, total_amount, now) {
            Err(e) => Err(e),
            Ok(stream) => {
                self.streams.push(stream);
                let stream_id: u64 = self.streams.len() as u64;
                self.events.push(
                    Event::StreamStarted {
                        stream_id,
                        from: sender,
                        to: receiver,
                        rate_per_sec,
                        duration,
                    },
                );
                proof {
                    assert(self@.payrolls =~= old(self)@.payrolls);
                }
                Ok(stream_id)
            },
        }
    }

    /// Pays out to `to` what has accrued on the stream `stream_id` by `now`.
    ///
    /// An unknown stream is refused first; then the withdrawal is judged as
    /// the stream judges it. A nonzero payout changes that stream alone and
    /// emits one event; a payout of zero is answered as zero and changes
    /// nothing, as does a refused withdrawal.
    pub fn withdraw_stream(&mut self, stream_id: u64, to: Address, now: u64) -> (outcome: Result<
        u64,
        Error,
    >)
        ensures
            match old(self)@.stream(stream_id) {
                None => outcome == Err::<u64, Error>(Error::StreamNotFound) && final(self)@ == old(
                    self,
                )@,
                Some(s) => match s.withdrawn(to@, now) {
                    Err(e) => outcome == Err::<u64, Error>(e) && final(self)@ == old(self)@,
                    Ok((next, paid)) => outcome == Ok::<u64, Error>(paid) && if paid == 0 {
                        final(self)@ == old(self)@
                    } else {
                        final(self)@ == (ContractState {
                            streams: old(self)@.streams.update(stream_id - 1, next),
                            events: old(self)@.events.push(
                                Event::StreamWithdrawn { stream_id, to, amount: paid },
                            ),
                            ..old(self)@
                        })
                    },
                },
            },
            old(self)@.wf() ==> final(self)@.wf(),
    {
        let index: usize = match slot(stream_id, self.streams.len()) {
            Some(index) => index,
            None => {
                return Err(Error::StreamNotFound);
            },
        };
        match self.streams[index].withdraw(&to, now) {
            Err(e) => {
                proof {
                    assert(self.streams@ =~= old(self).streams@);
                }
                Err(e)
            },
            Ok(paid) => {
                if paid != 0 {
                    self.events.push(Event::StreamWithdrawn { stream_id, to, amount: paid });
                } else {
                    proof {
                        assert(self.streams@ =~= old(self).streams@);
                    }
                }
                proof {
                    assert(self@.payrolls =~= old(self)@.payrolls);
                }
                Ok(paid)
            },
        }
    }

    /// The stream kept under `stream_id`, as it stands.
    pub fn get_stream_status(&self, stream_id: u64) -> (outcome: Result<StreamData, Error>)
        ensures
            match self@.stream(stream_id) {
                Some(s) => outcome == Ok::<StreamData, Error>(s),
                None => outcome == Err::<StreamData, Error>(Error::StreamNotFound),
            },
    {
        let index: usize = match slot(stream_id, self.streams.len()) {
            Some(index) => index,
            None => {
                return Err(Error::StreamNotFound);
            },
        };
        Ok(self.streams[index].clone())
    }

    /// Switches the circuit breaker and answers its new state.
    ///
    /// Only the admin may switch it; anyone else is refused and changes
    /// nothing. An accepted switch emits one event with the new state.
    pub fn toggle_circuit_breaker(&mut self, admin: Address) -> (outcome: Result<bool, Error>)
        ensures
            admin@ != old(self)@.admin@ ==> outcome == Err::<bool, Error>(Error::NotAuthorized)
                && final(self)@ == old(self)@,
            admin@ == old(self)@.admin@ ==> outcome == Ok::<bool, Error>(
                !old(self)@.breaker_active,
            ) && final(self)@ == (ContractState {
                breaker_active: !old(self)@.breaker_active,
                events: old(self)@.events.push(
                    Event::CircuitBreakerToggled { admin, active: !old(self)@.breaker_active },
                ),
                ..old(self)@
            }),
            old(self)@.wf() ==> final(self)@.wf(),
    {
        match switch(Some(&self.admin), &admin, self.breaker_active) {
            Err(e) => Err(e),
            Ok(active) => {
                self.breaker_active = active;
                self.events.push(Event::CircuitBreakerToggled { admin, active });
                proof {
                    assert(self@.payrolls =~= old(self)@.payrolls);
                }
                Ok(active)
            },
        }
    }

    /// Enters a new employee of `employer` into the roster at time `now` and
    /// answers its identifier, the next one after those given out to
    /// employees before.
    ///
    /// While the circuit breaker is active every new entry is refused,
    /// changes nothing and uses up no identifier. An accepted entry starts
    /// `Active` and emits one event.
    pub fn add_employee(
        &mut self,
        employer: Address,
        wallet_address: Address,
        email: String,
        first_name: String,
        last_name: String,
        position: String,
        salary: u64,
        currency: String,
        payment_schedule: String,
        now: u64,
    ) -> (outcome: Result<u64, Error>)
        ensures
            old(self)@.breaker_active ==> outcome == Err::<u64, Error>(
                Error::CircuitBreakerActive,
            ) && final(self)@ == old(self)@,
            !old(self)@.breaker_active ==> outcome == Ok::<u64, Error>(
                (old(self)@.employees.len() + 1) as u64,
            ) && final(self)@ == (ContractState {
                employees: old(self)@.employees.push(
                    registered_employee(
                        (old(self)@.employees.len() + 1) as u64,
                        employer,
                        wallet_address,
                        email,
                        first_name,
                        last_name,
                        position,
                        salary,
                        currency,
                        payment_schedule,
                        now,
                    ),
                ),
                events: old(self)@.events.push(
                    Event::EmployeeAdded {
                        employee_id: (old(self)@.employees.len() + 1) as u64,
                        employer,
                        wallet_address,
                        email,
                        salary,
                    },
                ),
                ..old(self)@
            }),
            old(self)@.wf() ==> final(self)@.wf(),
    {
        let notified = employer.clone();
        let wallet = wallet_address.clone();
        let contact = email.clone();
        match Employee::register(
            self.breaker_active,
            0,
            employer,
            wallet_address,
            email,
            first_name,
            last_name,
            position,
            salary,
            currency,
            payment_schedule,
            now,
        ) {
            Err(e) => Err(e),
            Ok(employee) => {
                // The identifier is the place of the entry in the roster,
                // which is known once the entry stands there.
                self.employees.push(employee);
                let employee_id: u64 = self.employees.len() as u64;
                let index: usize = self.employees.len() - 1;
                self.employees[index].id = employee_id;
                self.events.push(
                    Event::EmployeeAdded {
                        employee_id,
                        employer: notified,
                        wallet_address: wallet,
                        email: contact,
                        salary,
                    },
                );
                proof {
                    assert(self@.payrolls =~= old(self)@.payrolls);
                    assert(self.employees@ =~= old(self).employees@.push(
                        self.employees@[index as int],
                    ));
                }
                Ok(employee_id)
            },
        }
    }

    /// The employee kept under `employee_id`, as it stands. An unknown
    /// employee is reported with the same error as an unknown payroll.
    pub fn get_employee(&self, employee_id: u64) -> (outcome: Result<Employee, Error>)
        ensures
            match self@.employee(employee_id) {
                Some(e) => outcome == Ok::<Employee, Error>(e),
                None => outcome == Err::<Employee, Error>(Error::PayrollNotFound),
            },
    {
        let index: usize = match slot(employee_id, self.employees.len()) {
            Some(index) => index,
            None => {
                return Err(Error::PayrollNotFound);
            },
        };
        Ok(self.employees[index].clone())
    }

    /// The roster of `employer`: every employee that it ever added, whatever
    /// the status, in the order in which they were added.
    pub fn get_employer_employees(&self, employer: Address) -> (outcome: Result<
        Vec<Employee>,
        Error,
    >)
        ensures
            outcome is Ok,
            outcome->Ok_0@ == employees_of(self@.employees, employer@),
    {
        let mut roster: Vec<Employee> = Vec::new();
        let mut i: usize = 0;
        proof {
            assert(self.employees@.take(0) == Seq::<Employee>::empty());
        }
        while i < self.employees.len()
            invariant
                i <= self.employees.len(),
                roster@ == employees_of(self.employees@.take(i as int), employer@),
            decreases self.employees.len() - i,
        {
            proof {
                assert(self.employees@.take(i + 1).drop_last() == self.employees@.take(i as int));
            }
            if self.employees[i].employer.same(&employer) {
                roster.push(self.employees[i].clone());
            }
            i = i + 1;
        }
        proof {
            assert(self.employees@.take(i as int) == self.employees@);
        }
        Ok(roster)
    }

    /// Replaces, for the employee `employee_id`, the salary, position, payment
    /// schedule and status for which a new value is given.
    ///
    /// An unknown employee is refused first, with the same error as an unknown
    /// payroll; then everyone but the employer that owns the entry. An
    /// accepted update changes that entry alone, records `now` as the time of
    /// the update and emits one event with the salary as it then stands. The
    /// circuit breaker does not stand in the way.
    pub fn update_employee(
        &mut self,
        employer: Address,
        employee_id: u64,
        salary: Option<u64>,
        position: Option<String>,
        payment_schedule: Option<String>,
        status: Option<EmployeeStatus>,
        now: u64,
    ) -> (outcome: Result<(), Error>)
        ensures
            match old(self)@.employee(employee_id) {
                None => outcome == Err::<(), Error>(Error::PayrollNotFound) && final(self)@ == old(
                    self,
                )@,
                Some(e) => match e.updated(
                    employer@,
                    salary,
                    position,
                    payment_schedule,
                    status,
                    now,
                ) {
                    Err(e) => outcome == Err::<(), Error>(e) && final(self)@ == old(self)@,
                    Ok(next) => outcome is Ok && final(self)@ == (ContractState {
                        employees: old(self)@.employees.update(employee_id - 1, next),
                        events: old(self)@.events.push(
                            Event::EmployeeUpdated { employee_id, employer, salary: next.salary },
                        ),
                        ..old(self)@
                    }),
                },
            },
            old(self)@.wf() ==> final(self)@.wf(),
    {
        let index: usize = match slot(employee_id, self.employees.len()) {
            Some(index) => index,
            None => {
                return Err(Error::PayrollNotFound);
            },
        };
        match self.employees[index].update(
            &employer,
            salary,
            position,
            payment_schedule,
            status,
            now,
        ) {
            Err(e) => {
                proof {
                    assert(self.employees@ =~= old(self).employees@);
                }
                Err(e)
            },
            Ok(()) => {
                let salary: u64 = self.employees[index].salary;
                self.events.push(Event::EmployeeUpdated { employee_id, employer, salary });
                proof {
                    assert(self@.payrolls =~= old(self)@.payrolls);
                }
                Ok(())
            },
        }
    }

    /// Marks the employee `employee_id` `Terminated`; the entry stays in the
    /// roster of its employer.
    ///
    /// An unknown employee is refused first, with the same error as an unknown
    /// payroll; then everyone but the employer that owns the entry. An
    /// accepted removal changes that entry alone, records `now` as the time of
    /// the update and emits one event.
    pub fn remove_employee(&mut self, employer: Address, employee_id: u64, now: u64) -> (outcome:
        Result<(), Error>)
        ensures
            match old(self)@.employee(employee_id) {
                None => outcome == Err::<(), Error>(Error::PayrollNotFound) && final(self)@ == old(
                    self,
                )@,
                Some(e) => match e.terminated(employer@, now) {
                    Err(e) => outcome == Err::<(), Error>(e) && final(self)@ == old(self)@,
                    Ok(next) => outcome is Ok && final(self)@ == (ContractState {
                        employees: old(self)@.employees.update(employee_id - 1, next),
                        events: old(self)@.events.push(
                            Event::EmployeeTerminated { employee_id, employer },
                        ),
                        ..old(self)@
                    }),
                },
            },
            old(self)@.wf() ==> final(self)@.wf(),
    {
        let index: usize = match slot(employee_id, self.employees.len()) {
            Some(index) => index,
            None => {
                return Err(Error::PayrollNotFound);
            },
        };
        match self.employees[index].terminate(&employer, now) {
            Err(e) => {
                proof {
                    assert(self.employees@ =~= old(self).employees@);
                }
                Err(e)
            },
            Ok(()) => {
                self.events.push(Event::EmployeeTerminated { employee_id, employer });
                proof {
                    assert(self@.payrolls =~= old(self)@.payrolls);
                }
                Ok(())
            },
        }
    }

    /// How many employees of `employer` are `Active`.
    pub fn get_employee_count(&self, employer: Address) -> (count: u64)
        ensures
            count == active_count(employees_of(self@.employees, employer@)),
    {
        let mut count: u64 = 0;
        let mut i: usize = 0;
        proof {
            assert(self.employees@.take(0) == Seq::<Employee>::empty());
        }
        while i < self.employees.len()
            invariant
                i <= self.employees.len(),
                count == active_count(employees_of(self.employees@.take(i as int), employer@)),
            decreases self.employees.len() - i,
        {
            proof {
                let earlier = employees_of(self.employees@.take(i as int), employer@);
                assert(self.employees@.take(i + 1).drop_last() == self.employees@.take(i as int));
                assert(earlier.push(self.employees@[i as int]).drop_last() == earlier);
                lemma_active_count_bound(earlier);
                lemma_employees_of_bound(self.employees@.take(i as int), employer@);
            }
            if self.employees[i].employer.same(&employer) && self.employees[i].status
                == EmployeeStatus::Active {
                count = count + 1;
            }
            i = i + 1;
        }
        proof {
            assert(self.employees@.take(i as int) == self.employees@);
        }
        count
    }
}

} // verus!
