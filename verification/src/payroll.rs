//! The payroll escrow: its lifecycle, deposit accounting and payment release.

use vstd::prelude::*;

use crate::address::Address;
use crate::error::Error;

verus! {

/// Where a payroll stands in its lifecycle.
///
/// A payroll moves `Created -> Funded -> Releasing -> Completed`; cancelling
/// leads to `Cancelled` from every state but `Completed`. No operation enters
/// or leaves `Paused`.
#[derive(Copy, Clone, Debug, PartialEq, Eq, Structural)]
pub enum PayrollStatus {
    Created,
    Funded,
    Releasing,
    Completed,
    Cancelled,
    Paused,
}

/// How a payroll is meant to be paid out.
#[derive(Copy, Clone, Debug, PartialEq, Eq, Structural)]
pub enum ScheduleType {
    Immediate,
    Scheduled,
    Recurring,
    Streaming,
}

/// One party that a payroll pays, with the amount owed to it.
#[derive(Debug, PartialEq, Eq)]
pub struct Recipient {
    pub address: Address,
    pub amount: u64,
    pub paid: bool,
    pub stream_id: Option<u64>,
}

impl Clone for Recipient {
    fn clone(&self) -> (copy: Self)
        ensures
            copy == *self,
    {
        Recipient {
            address: self.address.clone(),
            amount: self.amount,
            paid: self.paid,
            stream_id: self.stream_id,
        }
    }
}

/// A transfer that a release owes: `amount` to `recipient`, to be carried out
/// exactly once.
#[derive(Debug, PartialEq, Eq)]
pub struct Payment {
    pub recipient: Address,
    pub amount: u64,
}

impl Clone for Payment {
    fn clone(&self) -> (copy: Self)
        ensures
            copy == *self,
    {
        Payment { recipient: self.recipient.clone(), amount: self.amount }
    }
}

/// An escrow funded by one employer and paid out to its recipients.
#[derive(Debug, PartialEq, Eq)]
pub struct PayrollData {
    pub employer: Address,
    pub recipients: Vec<Recipient>,
    pub total_amount: u64,
    pub deposited_amount: u64,
    pub asset: Address,
    pub status: PayrollStatus,
    pub schedule_type: ScheduleType,
    pub release_time: u64,
    pub created_at: u64,
    pub stream_rate: Option<u64>,
}

/// A payroll as a mathematical value: the recipients are a sequence.
pub struct PayrollView {
    pub employer: Address,
    pub recipients: Seq<Recipient>,
    pub total_amount: u64,
    pub deposited_amount: u64,
    pub asset: Address,
    pub status: PayrollStatus,
    pub schedule_type: ScheduleType,
    pub release_time: u64,
    pub created_at: u64,
    pub stream_rate: Option<u64>,
}

impl View for PayrollData {
    type V = PayrollView;

    open spec fn view(&self) -> PayrollView {
        PayrollView {
            employer: self.employer,
            recipients: self.recipients@,
            total_amount: self.total_amount,
            deposited_amount: self.deposited_amount,
            asset: self.asset,
            status: self.status,
            schedule_type: self.schedule_type,
            release_time: self.release_time,
            created_at: self.created_at,
            stream_rate: self.stream_rate,
        }
    }
}

/// The sum of the amounts owed to `recipients`.
pub open spec fn total_of(recipients: Seq<Recipient>) -> int
    decreases recipients.len(),
{
    if recipients.len() == 0 {
        0
    } else {
        total_of(recipients.drop_last()) + recipients.last().amount
    }
}

/// `recipients` with every one of them marked paid.
pub open spec fn all_paid(recipients: Seq<Recipient>) -> Seq<Recipient> {
    Seq::new(
        recipients.len(),
        |i: int|
            Recipient {
                address: recipients[i].address,
                amount: recipients[i].amount,
                paid: true,
                stream_id: recipients[i].stream_id,
            },
    )
}

/// The transfers owed to those of `recipients` that are not paid yet, in the
/// order of the recipients.
pub open spec fn payments_due(recipients: Seq<Recipient>) -> Seq<Payment>
    decreases recipients.len(),
{
    if recipients.len() == 0 {
        Seq::empty()
    } else if recipients.last().paid {
        payments_due(recipients.drop_last())
    } else {
        payments_due(recipients.drop_last()).push(
            Payment { recipient: recipients.last().address, amount: recipients.last().amount },
        )
    }
}

/// The payroll that `employer` opens at time `now`: in `Created`, with nothing
/// deposited, the sum owed to the recipients as its total, and a missing
/// release time counted as zero.
pub open spec fn opened_payroll(
    employer: Address,
    recipients: Seq<Recipient>,
    asset: Address,
    schedule_type: ScheduleType,
    release_time: Option<u64>,
    stream_rate: Option<u64>,
    now: u64,
) -> PayrollView {
    PayrollView {
        employer,
        recipients,
        total_amount: total_of(recipients) as u64,
        deposited_amount: 0,
        asset,
        status: PayrollStatus::Created,
        schedule_type,
        release_time: match release_time {
            Some(t) => t,
            None => 0,
        },
        created_at: now,
        stream_rate,
    }
}

/// Why a payroll is not opened, if it is not: the circuit breaker is looked at
/// first, then the recipient list, then the summed amount.
pub open spec fn creation_refusal(breaker_active: bool, recipients: Seq<Recipient>) -> Option<
    Error,
> {
    if breaker_active {
        Some(Error::CircuitBreakerActive)
    } else if recipients.len() == 0 {
        Some(Error::InvalidRecipients)
    } else if total_of(recipients) == 0 {
        Some(Error::InvalidAmount)
    } else {
        None
    }
}

impl PayrollView {
    /// The accounting of the payroll is consistent: the total is the sum owed
    /// to a non-empty list of recipients, the deposits never exceed it, and the
    /// status agrees with how far the payroll is funded and paid.
    pub open spec fn wf(self) -> bool {
        &&& self.recipients.len() > 0
        &&& self.total_amount == total_of(self.recipients)
        &&& self.total_amount > 0
        &&& self.deposited_amount <= self.total_amount
        &&& (self.status is Created ==> self.deposited_amount < self.total_amount)
        &&& (self.status is Funded || self.status is Releasing || self.status is Completed
            ==> self.deposited_amount == self.total_amount)
        &&& (self.status is Completed ==> forall|i: int|
            0 <= i < self.recipients.len() ==> (#[trigger] self.recipients[i]).paid)
    }

    /// What is still to be deposited before the payroll is fully funded.
    pub open spec fn remaining(self) -> int {
        self.total_amount - self.deposited_amount
    }

    /// The payroll after `from` deposits `amount`, or the reason for which the
    /// deposit is refused.
    pub open spec fn deposited(self, from: Seq<char>, amount: u64) -> Result<PayrollView, Error> {
        if from != self.employer@ {
            Err(Error::NotAuthorized)
        } else if self.deposited_amount >= self.total_amount {
            Err(Error::PayrollAlreadyFunded)
        } else if amount > self.remaining() {
            Err(Error::InvalidAmount)
        } else {
            Ok(
                PayrollView {
                    deposited_amount: (self.deposited_amount + amount) as u64,
                    status: if self.deposited_amount + amount >= self.total_amount {
                        PayrollStatus::Funded
                    } else {
                        self.status
                    },
                    ..self
                },
            )
        }
    }

    /// The payroll after a deposit of `amount` that was asked for by `from`:
    /// the new state where the deposit is accepted, the old one where it is
    /// refused.
    pub open spec fn after_deposit(self, from: Seq<char>, amount: u64) -> PayrollView {
        match self.deposited(from, amount) {
            Ok(next) => next,
            Err(_) => self,
        }
    }

    /// The payroll after a sequence of deposit calls, each given by its caller
    /// and its amount.
    pub open spec fn after_deposits(self, deposits: Seq<(Seq<char>, u64)>) -> PayrollView
        decreases deposits.len(),
    {
        if deposits.len() == 0 {
            self
        } else {
            self.after_deposits(deposits.drop_last()).after_deposit(
                deposits.last().0,
                deposits.last().1,
            )
        }
    }

    /// The payroll after `caller` releases it at time `now`, or the reason for
    /// which the release is refused.
    pub open spec fn released(self, caller: Seq<char>, now: u64) -> Result<PayrollView, Error> {
        if caller != self.employer@ {
            Err(Error::NotAuthorized)
        } else if self.status != PayrollStatus::Funded {
            Err(Error::PayrollNotFunded)
        } else if self.schedule_type == ScheduleType::Scheduled && now < self.release_time {
            Err(Error::TooEarly)
        } else {
            Ok(
                PayrollView {
                    recipients: all_paid(self.recipients),
                    status: PayrollStatus::Completed,
                    ..self
                },
            )
        }
    }

    /// The payroll after `caller` cancels it, or the reason for which the
    /// cancellation is refused.
    pub open spec fn cancelled(self, caller: Seq<char>) -> Result<PayrollView, Error> {
        if caller != self.employer@ {
            Err(Error::NotAuthorized)
        } else if self.status == PayrollStatus::Completed {
            Err(Error::PayrollCompleted)
        } else {
            Ok(PayrollView { status: PayrollStatus::Cancelled, ..self })
        }
    }
}

/// The sum owed to a prefix of the recipients never exceeds the sum owed to
/// all of them.
pub proof fn lemma_total_of_prefix(recipients: Seq<Recipient>, n: int)
    requires
        0 <= n <= recipients.len(),
    ensures
        0 <= total_of(recipients.take(n)) <= total_of(recipients),
    decreases recipients.len(),
{
    if n == recipients.len() {
        assert(recipients.take(n) == recipients);
        if recipients.len() > 0 {
            lemma_total_of_prefix(recipients.drop_last(), n - 1);
            assert(recipients.drop_last().take(n - 1) == recipients.drop_last());
        }
    } else {
        lemma_total_of_prefix(recipients.drop_last(), n);
        assert(recipients.drop_last().take(n) == recipients.take(n));
    }
}

/// Sums the amounts owed to `recipients`. The answer is `None` exactly when
/// the sum does not fit in 64 bits.
pub fn checked_total(recipients: &Vec<Recipient>) -> (total: Option<u64>)
    ensures
        total_of(recipients@) <= u64::MAX ==> total == Some(total_of(recipients@) as u64),
        total_of(recipients@) > u64::MAX ==> total is None,
{
    let mut sum: u64 = 0;
    let mut i: usize = 0;
    proof {
        assert(recipients@.take(0) == Seq::<Recipient>::empty());
    }
    while i < recipients.len()
        invariant
            i <= recipients.len(),
            sum == total_of(recipients@.take(i as int)),
        decreases recipients.len() - i,
    {
        proof {
            assert(recipients@.take(i + 1).drop_last() == recipients@.take(i as int));
            lemma_total_of_prefix(recipients@, i + 1);
        }
        match sum.checked_add(recipients[i].amount) {
            Some(next) => {
                sum = next;
            },
            None => {
                return None;
            },
        }
        i = i + 1;
    }
    proof {
        assert(recipients@.take(i as int) == recipients@);
    }
    Some(sum)
}

impl PayrollData {
    /// Opens a payroll for `employer` at time `now`.
    ///
    /// The payroll starts in `Created` with nothing deposited; its total is
    /// the sum owed to the recipients. A missing release time counts as zero.
    /// The circuit breaker refuses every creation while it is active; an empty
    /// recipient list and a zero total are refused next, in this order. Where
    /// the total is looked at, it has to fit in 64 bits.
    pub fn create(
        breaker_active: bool,
        employer: Address,
        recipients: Vec<Recipient>,
        asset: Address,
        schedule_type: ScheduleType,
        release_time: Option<u64>,
        stream_rate: Option<u64>,
        now: u64,
    ) -> (created: Result<PayrollData, Error>)
        requires
            !breaker_active && recipients@.len() > 0 ==> total_of(recipients@) <= u64::MAX,
        ensures
            match creation_refusal(breaker_active, recipients@) {
                Some(e) => created == Err::<PayrollData, Error>(e),
                None => created is Ok && created->Ok_0@ == opened_payroll(
                    employer,
                    recipients@,
                    asset,
                    schedule_type,
                    release_time,
                    stream_rate,
                    now,
                ) && created->Ok_0@.wf(),
            },
    {
        if breaker_active {
            return Err(Error::CircuitBreakerActive);
        }
        if recipients.len() == 0 {
            return Err(Error::InvalidRecipients);
        }
        proof {
            lemma_total_of_prefix(recipients@, 0);
        }
        let total_amount: u64 = checked_total(&recipients).unwrap();
        if total_amount == 0 {
            return Err(Error::InvalidAmount);
        }
        Ok(
            PayrollData {
                employer,
                recipients,
                total_amount,
                deposited_amount: 0,
                asset,
                status: PayrollStatus::Created,
                schedule_type,
                release_time: match release_time {
                    Some(t) => t,
                    None => 0,
                },
                created_at: now,
                stream_rate,
            },
        )
    }

    /// Takes a deposit of `amount` from `from`.
    ///
    /// Only the employer may fund the payroll. A payroll that is fully funded
    /// takes no more, and no deposit may exceed what is still missing. When
    /// the deposits reach the total the payroll becomes `Funded`. A refused
    /// deposit leaves the payroll as it was.
    pub fn deposit(&mut self, from: &Address, amount: u64) -> (outcome: Result<(), Error>)
        ensures
            match old(self)@.deposited(from@, amount) {
                Ok(next) => outcome is Ok && final(self)@ == next,
                Err(e) => outcome == Err::<(), Error>(e) && *final(self) == *old(self),
            },
            old(self)@.wf() ==> final(self)@.wf(),
    {
        if !from.same(&self.employer) {
            return Err(Error::NotAuthorized);
        }
        if self.deposited_amount >= self.total_amount {
            return Err(Error::PayrollAlreadyFunded);
        }
        let remaining: u64 = self.total_amount - self.deposited_amount;
        if amount > remaining {
            return Err(Error::InvalidAmount);
        }
        self.deposited_amount = self.deposited_amount + amount;
        if self.deposited_amount >= self.total_amount {
            self.status = PayrollStatus::Funded;
        }
        Ok(())
    }

    /// Releases the payroll to its recipients at time `now`.
    ///
    /// Only the employer may release, only a `Funded` payroll, and a
    /// `Scheduled` one not before its release time. Every recipient that was
    /// not paid is marked paid and the payroll becomes `Completed`. The answer
    /// lists the transfers owed, one for each recipient that was not paid
    /// before, in the order of the recipients. A refused release leaves the
    /// payroll as it was.
    pub fn release(&mut self, caller: &Address, now: u64) -> (outcome: Result<Vec<Payment>, Error>)
        ensures
            match old(self)@.released(caller@, now) {
                Ok(next) => outcome is Ok && final(self)@ == next && outcome->Ok_0@
                    == payments_due(old(self)@.recipients),
                Err(e) => outcome == Err::<Vec<Payment>, Error>(e) && *final(self) == *old(self),
            },
            old(self)@.wf() ==> final(self)@.wf(),
    {
        if !caller.same(&self.employer) {
            return Err(Error::NotAuthorized);
        }
        if self.status != PayrollStatus::Funded {
            return Err(Error::PayrollNotFunded);
        }
        if self.schedule_type == ScheduleType::Scheduled && now < self.release_time {
            return Err(Error::TooEarly);
        }
        let ghost before = self@;
        let mut payments: Vec<Payment> = Vec::new();
        let mut i: usize = 0;
        proof {
            assert(before.recipients.take(0) == Seq::<Recipient>::empty());
        }
        while i < self.recipients.len()
            invariant
                i <= self.recipients.len(),
                self.recipients.len() == before.recipients.len(),
                self@ == (PayrollView { recipients: self.recipients@, ..before }),
                forall|j: int| 0 <= j < i ==> self.recipients@[j] == all_paid(before.recipients)[j],
                forall|j: int|
                    i <= j < self.recipients.len() ==> self.recipients@[j] == before.recipients[j],
                payments@ == payments_due(before.recipients.take(i as int)),
            decreases self.recipients.len() - i,
        {
            proof {
                assert(before.recipients.take(i + 1).drop_last() == before.recipients.take(
                    i as int,
                ));
            }
            if !self.recipients[i].paid {
                payments.push(
                    Payment {
                        recipient: self.recipients[i].address.clone(),
                        amount: self.recipients[i].amount,
                    },
                );
                self.recipients[i].paid = true;
            }
            i = i + 1;
        }
        self.status = PayrollStatus::Completed;
        proof {
            assert(before.recipients.take(i as int) == before.recipients);
            assert(self.recipients@ == all_paid(before.recipients));
            lemma_all_paid_keeps_total(before.recipients);
        }
        Ok(payments)
    }

    /// Cancels the payroll.
    ///
    /// Only the employer may cancel, and not a `Completed` payroll. From every
    /// other state the payroll becomes `Cancelled`; recipients that were paid
    /// stay paid and the deposits stay as they are. A refused cancellation
    /// leaves the payroll as it was.
    pub fn cancel(&mut self, caller: &Address) -> (outcome: Result<(), Error>)
        ensures
            match old(self)@.cancelled(caller@) {
                Ok(next) => outcome is Ok && final(self)@ == next,
                Err(e) => outcome == Err::<(), Error>(e) && *final(self) == *old(self),
            },
            old(self)@.wf() ==> final(self)@.wf(),
    {
        if !caller.same(&self.employer) {
            return Err(Error::NotAuthorized);
        }
        if self.status == PayrollStatus::Completed {
            return Err(Error::PayrollCompleted);
        }
        self.status = PayrollStatus::Cancelled;
        Ok(())
    }
}

impl Clone for PayrollData {
    fn clone(&self) -> (copy: Self)
        ensures
            copy@ == self@,
    {
        let recipients = self.recipients.clone();
        proof {
            assert(recipients@ =~= self.recipients@);
        }
        PayrollData {
            employer: self.employer.clone(),
            recipients,
            total_amount: self.total_amount,
            deposited_amount: self.deposited_amount,
            asset: self.asset.clone(),
            status: self.status,
            schedule_type: self.schedule_type,
            release_time: self.release_time,
            created_at: self.created_at,
            stream_rate: self.stream_rate,
        }
    }
}

/// Marking recipients paid changes nothing of what is owed to them.
pub proof fn lemma_all_paid_keeps_total(recipients: Seq<Recipient>)
    ensures
        total_of(all_paid(recipients)) == total_of(recipients),
    decreases recipients.len(),
{
    if recipients.len() > 0 {
        lemma_all_paid_keeps_total(recipients.drop_last());
        assert(all_paid(recipients).drop_last() == all_paid(recipients.drop_last()));
    }
}

/// Over every sequence of deposit calls on a payroll, by whatever callers and
/// of whatever amounts, the deposited amount never decreases from one call to
/// a later one and never exceeds the total, which stays what it was.
pub proof fn lemma_deposits_conserve_funds(
    p: PayrollView,
    deposits: Seq<(Seq<char>, u64)>,
    earlier: int,
    later: int,
)
    requires
        p.deposited_amount <= p.total_amount,
        0 <= earlier <= later <= deposits.len(),
    ensures
        p.deposited_amount <= p.after_deposits(deposits.take(earlier)).deposited_amount,
        p.after_deposits(deposits.take(earlier)).deposited_amount <= p.after_deposits(
            deposits.take(later),
        ).deposited_amount,
        p.after_deposits(deposits.take(later)).deposited_amount <= p.total_amount,
        p.after_deposits(deposits.take(later)).total_amount == p.total_amount,
    decreases later,
{
    if later == 0 {
        assert(deposits.take(0) == Seq::<(Seq<char>, u64)>::empty());
    } else {
        assert(deposits.take(later).drop_last() == deposits.take(later - 1));
        if earlier == later {
            lemma_deposits_conserve_funds(p, deposits, earlier - 1, later - 1);
        } else {
            lemma_deposits_conserve_funds(p, deposits, earlier, later - 1);
        }
    }
}

/// A deposit by the employer into a payroll that is not fully funded, of more
/// than what is still missing, is refused as an invalid amount and leaves the
/// payroll as it was.
pub proof fn lemma_excess_deposit_is_refused(p: PayrollView, amount: u64)
    requires
        p.deposited_amount < p.total_amount,
        amount > p.remaining(),
    ensures
        p.deposited(p.employer@, amount) == Err::<PayrollView, Error>(Error::InvalidAmount),
        p.after_deposit(p.employer@, amount) == p,
{
}

/// Whoever is not the employer of a payroll can neither fund, release nor
/// cancel it: each of the three is refused as not authorized, whatever the
/// state of the payroll, the amount and the time.
pub proof fn lemma_only_the_employer_acts(p: PayrollView, caller: Seq<char>, amount: u64, now: u64)
    requires
        caller != p.employer@,
    ensures
        p.deposited(caller, amount) == Err::<PayrollView, Error>(Error::NotAuthorized),
        p.released(caller, now) == Err::<PayrollView, Error>(Error::NotAuthorized),
        p.cancelled(caller) == Err::<PayrollView, Error>(Error::NotAuthorized),
        p.after_deposit(caller, amount) == p,
{
}

} // verus!
