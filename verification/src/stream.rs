//! Continuous payment streams and their time-proportional accrual.

use vstd::prelude::*;

use crate::address::Address;
use crate::error::Error;

verus! {

/// A stream pays `rate_per_sec` units for every second that passes, up to
/// `total_deposited`, to the receiver `to`.
///
/// `end_time` records when the stream was meant to end; accrual does not stop
/// there, only at the deposited cap.
#[derive(Debug, PartialEq, Eq)]
pub struct StreamData {
    pub from: Address,
    pub to: Address,
    pub rate_per_sec: u64,
    pub start_time: u64,
    pub end_time: u64,
    pub last_withdrawal: u64,
    pub total_deposited: u64,
    pub total_withdrawn: u64,
    pub active: bool,
}

impl Clone for StreamData {
    fn clone(&self) -> (copy: Self)
        ensures
            copy == *self,
    {
        StreamData {
            from: self.from.clone(),
            to: self.to.clone(),
            rate_per_sec: self.rate_per_sec,
            start_time: self.start_time,
            end_time: self.end_time,
            last_withdrawal: self.last_withdrawal,
            total_deposited: self.total_deposited,
            total_withdrawn: self.total_withdrawn,
            active: self.active,
        }
    }
}

/// Whether a stream with these terms is refused: none of them may be zero.
pub open spec fn stream_terms_invalid(rate_per_sec: u64, duration: u64, total_amount: u64) -> bool {
    rate_per_sec == 0 || duration == 0 || total_amount == 0
}

/// The stream that starts from `from` to `to` at time `now`: active, with
/// nothing withdrawn, the last withdrawal at `now`, and meant to end
/// `duration` seconds later.
pub open spec fn started_stream(
    from: Address,
    to: Address,
    rate_per_sec: u64,
    duration: u64,
    total_amount: u64,
    now: u64,
) -> StreamData {
    StreamData {
        from,
        to,
        rate_per_sec,
        start_time: now,
        end_time: (now + duration) as u64,
        last_withdrawal: now,
        total_deposited: total_amount,
        total_withdrawn: 0,
        active: true,
    }
}

impl StreamData {
    /// The accounting of the stream is consistent: it never pays out more
    /// than was deposited, and it is active exactly while something is left.
    pub open spec fn wf(self) -> bool {
        &&& self.rate_per_sec > 0
        &&& self.total_deposited > 0
        &&& self.total_withdrawn <= self.total_deposited
        &&& (self.active <==> self.total_withdrawn < self.total_deposited)
        &&& self.start_time < self.end_time
        &&& self.start_time <= self.last_withdrawal
    }

    /// The seconds that have passed since the last withdrawal; never negative.
    pub open spec fn elapsed(self, now: u64) -> int {
        if now >= self.last_withdrawal {
            now - self.last_withdrawal
        } else {
            0
        }
    }

    /// What has accrued since the last withdrawal, before the cap is applied.
    pub open spec fn accrued(self, now: u64) -> int {
        self.elapsed(now) * self.rate_per_sec
    }

    /// What is left of the deposit; never negative.
    pub open spec fn remaining_cap(self) -> int {
        if self.total_deposited >= self.total_withdrawn {
            self.total_deposited - self.total_withdrawn
        } else {
            0
        }
    }

    /// What a withdrawal at time `now` pays: the accrued amount, capped at
    /// what is left of the deposit.
    pub open spec fn payout(self, now: u64) -> int {
        if self.accrued(now) <= self.remaining_cap() {
            self.accrued(now)
        } else {
            self.remaining_cap()
        }
    }

    /// The stream after `to` withdraws at time `now`, with the amount paid, or
    /// the reason for which the withdrawal is refused.
    pub open spec fn withdrawn(self, to: Seq<char>, now: u64) -> Result<(StreamData, u64), Error> {
        if !self.active {
            Err(Error::StreamInactive)
        } else if to != self.to@ {
            Err(Error::NotAuthorized)
        } else if self.payout(now) == 0 {
            Ok((self, 0))
        } else {
            Ok(
                (
                    StreamData {
                        total_withdrawn: (self.total_withdrawn + self.payout(now)) as u64,
                        last_withdrawal: now,
                        active: self.total_withdrawn + self.payout(now) < self.total_deposited,
                        ..self
                    },
                    self.payout(now) as u64,
                ),
            )
        }
    }

    /// The stream after a withdrawal that was asked for by `to` at time `now`:
    /// the new state where the withdrawal is accepted, the old one where it is
    /// refused.
    pub open spec fn after_withdrawal(self, to: Seq<char>, now: u64) -> StreamData {
        match self.withdrawn(to, now) {
            Ok((next, _)) => next,
            Err(_) => self,
        }
    }

    /// The stream after a sequence of withdrawal calls, each given by its
    /// caller and its time.
    pub open spec fn after_withdrawals(self, calls: Seq<(Seq<char>, u64)>) -> StreamData
        decreases calls.len(),
    {
        if calls.len() == 0 {
            self
        } else {
            self.after_withdrawals(calls.drop_last()).after_withdrawal(
                calls.last().0,
                calls.last().1,
            )
        }
    }

    /// Starts a stream from `from` to `to` at time `now`.
    ///
    /// A zero rate, duration or total is refused. The stream starts active,
    /// with nothing withdrawn and the last withdrawal set to `now`; it is
    /// meant to end `duration` seconds later. Whether `rate_per_sec` times
    /// `duration` agrees with `total_amount` is not looked at.
    pub fn start(
        from: Address,
        to: Address,
        rate_per_sec: u64,
        duration: u64,
        total_amount: u64,
        now: u64,
    ) -> (started: Result<StreamData, Error>)
        requires
            !stream_terms_invalid(rate_per_sec, duration, total_amount) ==> now + duration
                <= u64::MAX,
        ensures
            stream_terms_invalid(rate_per_sec, duration, total_amount) ==> started == Err::<
                StreamData,
                Error,
            >(Error::InvalidAmount),
            !stream_terms_invalid(rate_per_sec, duration, total_amount) ==> started == Ok::<
                StreamData,
                Error,
            >(started_stream(from, to, rate_per_sec, duration, total_amount, now))
                && started->Ok_0.wf(),
    {
        if rate_per_sec == 0 || duration == 0 || total_amount == 0 {
            return Err(Error::InvalidAmount);
        }
        Ok(
            StreamData {
                from,
                to,
                rate_per_sec,
                start_time: now,
                end_time: now + duration,
                last_withdrawal: now,
                total_deposited: total_amount,
                total_withdrawn: 0,
                active: true,
            },
        )
    }

    /// Pays out to `to` what has accrued by time `now`.
    ///
    /// An inactive stream refuses every withdrawal; an active one refuses
    /// everyone but its receiver. The amount paid is the time since the last
    /// withdrawal times the rate, capped at what is left of the deposit. When
    /// that is zero the stream is left as it was and zero is answered.
    /// Otherwise the amount is added to what was withdrawn, the time of the
    /// last withdrawal becomes `now`, and the stream turns inactive once
    /// everything deposited has been withdrawn.
    pub fn withdraw(&mut self, to: &Address, now: u64) -> (outcome: Result<u64, Error>)
        ensures
            match old(self).withdrawn(to@, now) {
                Ok((next, paid)) => outcome == Ok::<u64, Error>(paid) && *final(self) == next,
                Err(e) => outcome == Err::<u64, Error>(e) && *final(self) == *old(self),
            },
            old(self).wf() ==> final(self).wf(),
    {
        if !self.active {
            return Err(Error::StreamInactive);
        }
        if !to.same(&self.to) {
            return Err(Error::NotAuthorized);
        }
        let elapsed: u64 = now.saturating_sub(self.last_withdrawal);
        let cap: u64 = self.total_deposited.saturating_sub(self.total_withdrawn);
        let payout: u64 = match elapsed.checked_mul(self.rate_per_sec) {
            Some(accrued) => if accrued < cap {
                accrued
            } else {
                cap
            },
            None => cap,
        };
        if payout == 0 {
            return Ok(0);
        }
        self.total_withdrawn = self.total_withdrawn + payout;
        self.last_withdrawal = now;
        if self.total_withdrawn >= self.total_deposited {
            self.active = false;
        }
        Ok(payout)
    }
}

/// A withdrawal never lowers what was withdrawn, never lets it pass what was
/// deposited, changes nothing else of the terms, and never turns an inactive
/// stream active again.
pub proof fn lemma_withdrawal_step(s: StreamData, to: Seq<char>, now: u64)
    requires
        s.wf(),
    ensures
        s.after_withdrawal(to, now).wf(),
        s.total_withdrawn <= s.after_withdrawal(to, now).total_withdrawn,
        s.after_withdrawal(to, now).total_deposited == s.total_deposited,
        s.after_withdrawal(to, now).rate_per_sec == s.rate_per_sec,
        s.last_withdrawal <= s.after_withdrawal(to, now).last_withdrawal,
        !s.active ==> s.withdrawn(to, now) == Err::<(StreamData, u64), Error>(
            Error::StreamInactive,
        ) && s.after_withdrawal(to, now) == s,
{
}

/// Over every sequence of withdrawal calls on a stream, by whatever callers
/// and at whatever times, the amount withdrawn never decreases from one call
/// to a later one and never exceeds the amount deposited.
pub proof fn lemma_withdrawn_is_monotonic(
    s: StreamData,
    calls: Seq<(Seq<char>, u64)>,
    earlier: int,
    later: int,
)
    requires
        s.wf(),
        0 <= earlier <= later <= calls.len(),
    ensures
        s.after_withdrawals(calls.take(later)).wf(),
        s.total_withdrawn <= s.after_withdrawals(calls.take(earlier)).total_withdrawn,
        s.after_withdrawals(calls.take(earlier)).total_withdrawn <= s.after_withdrawals(
            calls.take(later),
        ).total_withdrawn,
        s.after_withdrawals(calls.take(later)).total_withdrawn <= s.total_deposited,
        s.after_withdrawals(calls.take(later)).total_deposited == s.total_deposited,
    decreases later,
{
    if later == 0 {
        assert(calls.take(0) == Seq::<(Seq<char>, u64)>::empty());
    } else {
        let shorter = calls.take(later - 1);
        assert(calls.take(later).drop_last() == shorter);
        if earlier == later {
            lemma_withdrawn_is_monotonic(s, calls, earlier - 1, later - 1);
        } else {
            lemma_withdrawn_is_monotonic(s, calls, earlier, later - 1);
        }
        lemma_withdrawal_step(s.after_withdrawals(shorter), calls[later - 1].0, calls[later - 1].1);
    }
}

/// Once a stream is inactive it stays so: every later withdrawal, by whoever
/// and whenever, is refused as inactive and leaves the stream as it is.
pub proof fn lemma_inactive_is_terminal(
    s: StreamData,
    calls: Seq<(Seq<char>, u64)>,
    to: Seq<char>,
    now: u64,
)
    requires
        !s.active,
    ensures
        s.after_withdrawals(calls) == s,
        s.after_withdrawals(calls).withdrawn(to, now) == Err::<(StreamData, u64), Error>(
            Error::StreamInactive,
        ),
    decreases calls.len(),
{
    if calls.len() > 0 {
        lemma_inactive_is_terminal(s, calls.drop_last(), calls.last().0, calls.last().1);
    }
}

/// Two withdrawals by the receiver at times `t1 < t2`, on a stream that the
/// first one does not exhaust: the second pays exactly `(t2 - t1)` times the
/// rate, capped at what the first one left of the deposit.
///
/// Time does not run backwards: `t1` is not before the last withdrawal.
pub proof fn lemma_accrual_between_withdrawals(s: StreamData, t1: u64, t2: u64)
    requires
        s.wf(),
        s.active,
        s.last_withdrawal <= t1 < t2,
        s.after_withdrawal(s.to@, t1).active,
    ensures
        s.after_withdrawal(s.to@, t1).withdrawn(s.to@, t2) is Ok,
        s.after_withdrawal(s.to@, t1).withdrawn(s.to@, t2)->Ok_0.1 == vstd::math::min(
            (t2 - t1) * s.rate_per_sec,
            s.total_deposited - s.after_withdrawal(s.to@, t1).total_withdrawn,
        ),
{
    let first = s.after_withdrawal(s.to@, t1);
    if s.payout(t1) == 0 {
        assert(s.remaining_cap() > 0);
        assert(s.accrued(t1) == 0);
        assert(t1 == s.last_withdrawal) by (nonlinear_arith)
            requires
                (t1 - s.last_withdrawal) * s.rate_per_sec == 0,
                s.rate_per_sec > 0,
                t1 >= s.last_withdrawal,
        ;
    }
    assert(first.last_withdrawal == t1);
    assert(first.elapsed(t2) == t2 - t1);
}

/// Two withdrawals by the receiver at the same time `now`, later than the last
/// withdrawal: the first pays a nonzero amount. If it leaves the stream
/// active, the second pays exactly zero, without an error, and leaves the
/// stream as the first one left it; if the first one exhausts the stream, the
/// second is refused as inactive.
pub proof fn lemma_second_withdrawal_at_same_time(s: StreamData, now: u64)
    requires
        s.wf(),
        s.active,
        s.last_withdrawal < now,
    ensures
        s.withdrawn(s.to@, now) is Ok,
        s.withdrawn(s.to@, now)->Ok_0.1 > 0,
        s.after_withdrawal(s.to@, now).active ==> s.after_withdrawal(s.to@, now).withdrawn(
            s.to@,
            now,
        ) == Ok::<(StreamData, u64), Error>((s.after_withdrawal(s.to@, now), 0)),
        !s.after_withdrawal(s.to@, now).active ==> s.after_withdrawal(s.to@, now).withdrawn(
            s.to@,
            now,
        ) == Err::<(StreamData, u64), Error>(Error::StreamInactive),
{
    assert(s.accrued(now) > 0) by (nonlinear_arith)
        requires
            s.accrued(now) == (now - s.last_withdrawal) * s.rate_per_sec,
            s.rate_per_sec > 0,
            now > s.last_withdrawal,
    ;
    let first = s.after_withdrawal(s.to@, now);
    assert(first.last_withdrawal == now);
    assert(first.accrued(now) == 0);
}

} // verus!
