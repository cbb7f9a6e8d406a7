//! The call-money loan contract: its state, its transitions, and its
//! financial arithmetic.

use crate::decimal::{dec, div_trunc, lemma_div_trunc_abs_le, lemma_div_trunc_bounds, Decimal,
    SCALE};
use vstd::prelude::*;

verus! {

/// Seconds in one day: interest accrues per whole elapsed day.
pub const SECONDS_PER_DAY: i128 = 86_400;

/// Days in the interest year: rates are simple yearly rates, applied
/// pro rata per day.
pub const DAYS_PER_YEAR: i128 = 365;

/// Largest raw principal the contract accepts (one hundred trillion whole
/// units): keeps every interest product inside `i128`.
pub const AMOUNT_MAX: i128 = 100_000_000_000_000_000_000;

/// Largest raw rate the contract accepts (a rate of one hundred): keeps
/// every interest product inside `i128`.
pub const RATE_MAX: i128 = 100_000_000;

/// Largest magnitude the raw accrued interest may reach: keeps sums of
/// accrued interest and principal inside `i128`.
pub const ACCRUED_LIMIT: i128 = 100_000_000_000_000_000_000_000_000_000_000;

/// Largest whole-day span two `i64` timestamps can be apart
/// (`(2^64 - 1) / 86_400`, rounded up).
pub const MAX_DAY_SPAN: i128 = 213_503_982_334_602;

/// An opaque identifier for an externally managed party or asset. Resolving
/// it to a real account or token is the caller's concern; the contract only
/// records it.
#[derive(Clone, Copy, PartialEq, Eq, Structural, Debug)]
pub struct ResourceId {
    pub id: u64,
}

/// The lifecycle state of a loan contract.
#[derive(Clone, Copy, PartialEq, Eq, Structural, Debug)]
pub enum Status {
    /// The initial state: interest accrues, repayment has not been demanded.
    Active,
    /// The lender has demanded repayment; it is due after the notice period.
    Called,
    /// A repayment covered everything due; terminal.
    Repaid,
}

/// A precondition violation, reported with no state changed.
#[derive(Clone, Copy, PartialEq, Eq, Structural, Debug)]
pub enum LoanError {
    /// A construction parameter failed validation.
    InvalidParameter,
    /// The operation is not allowed in the contract's current state.
    InvalidState,
    /// Collateral is already attached.
    AlreadyExists,
}

/// One structured record of the append-only transaction log.
#[derive(Clone, Copy, PartialEq, Eq, Structural, Debug)]
pub enum LogEntry {
    /// Written once, when the contract is created.
    ContractInitiated,
    /// Interest was brought current; `interest` is the amount added.
    InterestUpdated { interest: Decimal },
    /// A repayment covered everything due; `excess` was returned to the payer.
    LoanFullyRepaid { excess: Decimal },
    /// A repayment smaller than the amount due was applied.
    PartialRepayment { amount: Decimal },
    /// The lender demanded repayment, due at `due_date`.
    MoneyCalled { due_date: i64 },
    /// A late-repayment penalty was added to the accrued interest.
    PenaltyApplied { penalty: Decimal },
    /// Collateral was attached.
    CollateralAdded,
    /// Collateral was taken back.
    CollateralRemoved,
}

/// Whole days elapsed from `last` to `current` (both in seconds), truncated
/// towards zero; negative when `current` precedes `last`.
pub open spec fn elapsed_days(last: int, current: int) -> int {
    div_trunc(current - last, SECONDS_PER_DAY as int)
}

/// Simple pro-rata interest: `amount * rate * days / 365`, computed on raw
/// fixed-point values. The product of amount and rate is truncated to a raw
/// fixed-point value before the day pro-rating, and each division truncates
/// towards zero.
pub open spec fn pro_rata(amount: int, rate: int, days: int) -> int {
    div_trunc(div_trunc(amount * rate, SCALE as int) * days, DAYS_PER_YEAR as int)
}

/// Do the construction parameters pass validation?
pub open spec fn valid_params(
    principal: int,
    interest_rate: int,
    notice_period: int,
    grace_period: int,
    penalty_rate: int,
) -> bool {
    &&& principal > 0
    &&& 0 < interest_rate < SCALE as int
    &&& notice_period >= 0
    &&& grace_period >= 0
    &&& penalty_rate >= 0
}

/// Do the two states agree on every immutable field?
pub open spec fn same_parties_and_terms(a: CallMoney, b: CallMoney) -> bool {
    &&& b.lender == a.lender
    &&& b.borrower == a.borrower
    &&& b.interest_rate == a.interest_rate
    &&& b.start_date == a.start_date
    &&& b.notice_period == a.notice_period
    &&& b.grace_period == a.grace_period
    &&& b.penalty_rate == a.penalty_rate
}

/// The state of one call-money loan. One value per loan; every operation is
/// an atomic read-modify-write on it.
pub struct CallMoney {
    /// The party owed the money; immutable.
    pub lender: ResourceId,
    /// The party owing the money; immutable.
    pub borrower: ResourceId,
    /// The outstanding borrowed amount; decreases only through repayment.
    pub principal: Decimal,
    /// The yearly interest rate, strictly between zero and one; immutable.
    pub interest_rate: Decimal,
    /// Interest computed but not yet paid.
    pub accrued_interest: Decimal,
    /// When the contract started; immutable.
    pub start_date: i64,
    /// When interest was last brought current.
    pub last_interest_calculation_date: i64,
    /// Seconds between a repayment demand and the repayment being due;
    /// immutable.
    pub notice_period: i64,
    /// Seconds past the due date before penalties begin; immutable.
    pub grace_period: i64,
    /// The yearly rate at which penalties accrue once overdue; immutable.
    pub penalty_rate: Decimal,
    /// Where the contract stands in its lifecycle.
    pub status: Status,
    /// The asset held against the loan, at most one at a time.
    pub collateral: Option<ResourceId>,
    /// The append-only log: never reordered, never truncated.
    pub transaction_history: Vec<LogEntry>,
}

impl CallMoney {
    /// Well-formedness: the bounds that creation establishes and every
    /// operation preserves.
    pub open spec fn wf(self) -> bool {
        &&& 0 <= self.principal@ <= AMOUNT_MAX as int
        &&& 0 < self.interest_rate@ < SCALE as int
        &&& 0 <= self.penalty_rate@ <= RATE_MAX as int
        &&& -(ACCRUED_LIMIT as int) <= self.accrued_interest@ <= ACCRUED_LIMIT as int
        &&& self.notice_period >= 0
        &&& self.grace_period >= 0
    }

    /// The interest an accrual at `current` would add: pro-rata interest on
    /// the principal over the whole days elapsed since the last calculation.
    pub open spec fn interest_due(self, current: int) -> int {
        pro_rata(
            self.principal@,
            self.interest_rate@,
            elapsed_days(self.last_interest_calculation_date as int, current),
        )
    }

    /// The accrued interest after an accrual at `current`.
    pub open spec fn accrued_after_update(self, current: int) -> int {
        self.accrued_interest@ + self.interest_due(current)
    }

    /// Everything owed after an accrual at `current`: principal plus
    /// brought-current accrued interest.
    pub open spec fn total_due_at(self, current: int) -> int {
        self.principal@ + self.accrued_after_update(current)
    }

    /// Creates a contract over validated parameters: the principal must be
    /// positive, the interest rate strictly between zero and one, and the
    /// periods and the penalty rate non-negative, else the construction
    /// fails with [`LoanError::InvalidParameter`]. A new contract is
    /// `Active`, owes no interest, and has a one-entry log.
    ///
    /// The bounds required of `principal` and `penalty_rate` keep the
    /// interest arithmetic inside `i128`.
    pub fn instantiate_call_money(
        lender: ResourceId,
        borrower: ResourceId,
        principal: Decimal,
        interest_rate: Decimal,
        start_date: i64,
        notice_period: i64,
        grace_period: i64,
        penalty_rate: Decimal,
    ) -> (result: Result<CallMoney, LoanError>)
        requires
            principal@ <= AMOUNT_MAX as int,
            penalty_rate@ <= RATE_MAX as int,
        ensures
            match result {
                Ok(contract) => {
                    &&& valid_params(
                        principal@,
                        interest_rate@,
                        notice_period as int,
                        grace_period as int,
                        penalty_rate@,
                    )
                    &&& contract.wf()
                    &&& contract.lender == lender
                    &&& contract.borrower == borrower
                    &&& contract.principal == principal
                    &&& contract.interest_rate == interest_rate
                    &&& contract.accrued_interest@ == 0
                    &&& contract.start_date == start_date
                    &&& contract.last_interest_calculation_date == start_date
                    &&& contract.notice_period == notice_period
                    &&& contract.grace_period == grace_period
                    &&& contract.penalty_rate == penalty_rate
                    &&& contract.status == Status::Active
                    &&& contract.collateral is None
                    &&& contract.transaction_history@ == seq![LogEntry::ContractInitiated]
                },
                Err(e) => {
                    &&& e == LoanError::InvalidParameter
                    &&& !valid_params(
                        principal@,
                        interest_rate@,
                        notice_period as int,
                        grace_period as int,
                        penalty_rate@,
                    )
                },
            },
    {
        if principal.raw <= 0 {
            return Err(LoanError::InvalidParameter);
        }
        if interest_rate.raw <= 0 || interest_rate.raw >= SCALE {
            return Err(LoanError::InvalidParameter);
        }
        if notice_period < 0 {
            return Err(LoanError::InvalidParameter);
        }
        if grace_period < 0 {
            return Err(LoanError::InvalidParameter);
        }
        if penalty_rate.raw < 0 {
            return Err(LoanError::InvalidParameter);
        }
        let mut history: Vec<LogEntry> = Vec::new();
        history.push(LogEntry::ContractInitiated);
        proof {
            assert(history@ =~= seq![LogEntry::ContractInitiated]);
        }
        Ok(
            CallMoney {
                lender,
                borrower,
                principal,
                interest_rate,
                accrued_interest: Decimal { raw: 0 },
                start_date,
                last_interest_calculation_date: start_date,
                notice_period,
                grace_period,
                penalty_rate,
                status: Status::Active,
                collateral: None,
                transaction_history: history,
            },
        )
    }

    /// Brings the accrued interest current at `current_date`: adds simple
    /// pro-rata interest on the principal over the whole days elapsed since
    /// the last calculation, records the new calculation date, and appends a
    /// log entry with the interest added. The interest added is returned.
    ///
    /// A `current_date` before the last calculation date is not rejected:
    /// the elapsed days are then negative and the "interest" added reduces
    /// the accrued interest. Callers wanting time to move only forwards must
    /// guard the dates they pass.
    ///
    /// The required bound on the updated accrued interest keeps the sum
    /// inside the contract's arithmetic range.
    pub fn update_accrued_interest(&mut self, current_date: i64) -> (interest: Decimal)
        requires
            old(self).wf(),
            -(ACCRUED_LIMIT as int) <= old(self).accrued_after_update(current_date as int)
                <= ACCRUED_LIMIT as int,
        ensures
            final(self).wf(),
            interest@ == old(self).interest_due(current_date as int),
            final(self).accrued_interest@ == old(self).accrued_after_update(current_date as int),
            final(self).last_interest_calculation_date == current_date,
            final(self).principal == old(self).principal,
            final(self).status == old(self).status,
            final(self).collateral == old(self).collateral,
            same_parties_and_terms(*old(self), *final(self)),
            final(self).transaction_history@ == old(self).transaction_history@.push(
                (LogEntry::InterestUpdated { interest }),
            ),
    {
        let delta: i128 = (current_date as i128) - (self.last_interest_calculation_date as i128);
        let days: i128 = delta / SECONDS_PER_DAY;
        proof {
            lemma_div_trunc_abs_le(delta as int, SECONDS_PER_DAY as int, u64::MAX as int);
            assert(days as int == elapsed_days(
                self.last_interest_calculation_date as int,
                current_date as int,
            ));
        }
        let interest_raw: i128 = pro_rata_amount(self.principal.raw, self.interest_rate.raw, days);
        self.accrued_interest = Decimal { raw: self.accrued_interest.raw + interest_raw };
        self.last_interest_calculation_date = current_date;
        let interest = Decimal { raw: interest_raw };
        self.transaction_history.push(LogEntry::InterestUpdated { interest });
        interest
    }

    /// Applies a repayment of `amount` at `current_date` and returns the
    /// excess paid beyond what was owed. Interest is first brought current
    /// (appending its log entry); everything owed is then the principal plus
    /// the accrued interest.
    ///
    /// - A payment covering everything owed makes the contract `Repaid`,
    ///   clears principal and accrued interest, and returns the excess.
    /// - A smaller payment goes first against accrued interest, and any
    ///   remainder against the principal; it returns zero.
    ///
    /// Repayment is deliberately accepted in every status, `Repaid`
    /// included: the contract never gates repayment on its lifecycle state,
    /// so a payment against a settled loan comes straight back as excess.
    pub fn repay(&mut self, amount: Decimal, current_date: i64) -> (excess: Decimal)
        requires
            old(self).wf(),
            0 <= amount@ <= ACCRUED_LIMIT as int,
            -(ACCRUED_LIMIT as int) <= old(self).accrued_after_update(current_date as int)
                <= ACCRUED_LIMIT as int,
        ensures
            final(self).wf(),
            final(self).last_interest_calculation_date == current_date,
            final(self).collateral == old(self).collateral,
            same_parties_and_terms(*old(self), *final(self)),
            ({
                let accrued = old(self).accrued_after_update(current_date as int);
                let due = old(self).total_due_at(current_date as int);
                let log = old(self).transaction_history@.push(
                    (LogEntry::InterestUpdated {
                        interest: dec(old(self).interest_due(current_date as int)),
                    }),
                );
                if amount@ >= due {
                    &&& final(self).status == Status::Repaid
                    &&& final(self).principal@ == 0
                    &&& final(self).accrued_interest@ == 0
                    &&& excess@ == amount@ - due
                    &&& final(self).transaction_history@ == log.push(
                        (LogEntry::LoanFullyRepaid { excess }),
                    )
                } else {
                    &&& final(self).status == old(self).status
                    &&& excess@ == 0
                    &&& final(self).principal@ + final(self).accrued_interest@ == due - amount@
                    &&& final(self).principal@ == if accrued >= amount@ {
                        old(self).principal@
                    } else {
                        due - amount@
                    }
                    &&& final(self).accrued_interest@ == if accrued >= amount@ {
                        accrued - amount@
                    } else {
                        0
                    }
                    &&& final(self).transaction_history@ == log.push(
                        (LogEntry::PartialRepayment { amount }),
                    )
                }
            }),
    {
        let _interest = self.update_accrued_interest(current_date);
        let total_due: i128 = self.principal.raw + self.accrued_interest.raw;
        if amount.raw >= total_due {
            self.status = Status::Repaid;
            let excess = Decimal { raw: amount.raw - total_due };
            self.principal = Decimal { raw: 0 };
            self.accrued_interest = Decimal { raw: 0 };
            self.transaction_history.push(LogEntry::LoanFullyRepaid { excess });
            excess
        } else {
            self.accrued_interest = Decimal { raw: self.accrued_interest.raw - amount.raw };
            if self.accrued_interest.raw < 0 {
                self.principal = Decimal { raw: self.principal.raw + self.accrued_interest.raw };
                self.accrued_interest = Decimal { raw: 0 };
            }
            self.transaction_history.push(LogEntry::PartialRepayment { amount });
            Decimal { raw: 0 }
        }
    }

    /// The call transition itself, with no status gate: brings interest
    /// current, marks the contract `Called`, and logs the due date. Shared
    /// by [`CallMoney::call_money`], which admits it only from `Active`, and
    /// by [`CallMoney::apply_penalty`], which re-runs it from `Called` to
    /// obtain the due date.
    fn call_transition(&mut self, current_date: i64) -> (outcome: (Decimal, i64))
        requires
            old(self).wf(),
            -(ACCRUED_LIMIT as int) <= old(self).accrued_after_update(current_date as int)
                <= ACCRUED_LIMIT as int,
            current_date + old(self).notice_period <= i64::MAX,
        ensures
            final(self).wf(),
            outcome.0@ == old(self).total_due_at(current_date as int),
            outcome.1 == current_date + old(self).notice_period,
            final(self).status == Status::Called,
            final(self).principal == old(self).principal,
            final(self).accrued_interest@ == old(self).accrued_after_update(current_date as int),
            final(self).last_interest_calculation_date == current_date,
            final(self).collateral == old(self).collateral,
            same_parties_and_terms(*old(self), *final(self)),
            final(self).transaction_history@ == old(self).transaction_history@.push(
                (LogEntry::InterestUpdated {
                    interest: dec(old(self).interest_due(current_date as int)),
                }),
            ).push((LogEntry::MoneyCalled { due_date: outcome.1 })),
    {
        let _interest = self.update_accrued_interest(current_date);
        let total_due = Decimal { raw: self.principal.raw + self.accrued_interest.raw };
        self.status = Status::Called;
        let due_date: i64 = current_date + self.notice_period;
        self.transaction_history.push(LogEntry::MoneyCalled { due_date });
        (total_due, due_date)
    }

    /// Demands repayment: allowed only while the contract is `Active`, else
    /// it fails with [`LoanError::InvalidState`] and changes nothing. On
    /// success it brings interest current, marks the contract `Called`, logs
    /// the due date, and returns everything owed together with the due date:
    /// `current_date` plus the notice period.
    pub fn call_money(&mut self, current_date: i64) -> (result: Result<(Decimal, i64), LoanError>)
        requires
            old(self).wf(),
            old(self).status == Status::Active ==> -(ACCRUED_LIMIT as int) <= old(
                self,
            ).accrued_after_update(current_date as int) <= ACCRUED_LIMIT as int,
            old(self).status == Status::Active ==> current_date + old(self).notice_period
                <= i64::MAX,
        ensures
            final(self).wf(),
            match result {
                Ok(outcome) => {
                    &&& old(self).status == Status::Active
                    &&& outcome.0@ == old(self).total_due_at(current_date as int)
                    &&& outcome.1 == current_date + old(self).notice_period
                    &&& final(self).status == Status::Called
                    &&& final(self).principal == old(self).principal
                    &&& final(self).accrued_interest@ == old(self).accrued_after_update(
                        current_date as int,
                    )
                    &&& final(self).last_interest_calculation_date == current_date
                    &&& final(self).collateral == old(self).collateral
                    &&& same_parties_and_terms(*old(self), *final(self))
                    &&& final(self).transaction_history@ == old(self).transaction_history@.push(
                        (LogEntry::InterestUpdated {
                            interest: dec(old(self).interest_due(current_date as int)),
                        }),
                    ).push((LogEntry::MoneyCalled { due_date: outcome.1 }))
                },
                Err(e) => {
                    &&& e == LoanError::InvalidState
                    &&& old(self).status != Status::Active
                    &&& *final(self) == *old(self)
                },
            },
    {
        if self.status != Status::Active {
            return Err(LoanError::InvalidState);
        }
        Ok(self.call_transition(current_date))
    }

    /// Assesses a late-repayment penalty: allowed only while the contract is
    /// `Called`, else it fails with [`LoanError::InvalidState`] and changes
    /// nothing. On success it re-runs the call transition (as the contract
    /// has always done) to bring interest current and obtain a due date —
    /// `current_date` plus the notice period — skipping only the transition's
    /// `Active` gate, which would contradict this operation's own `Called`
    /// gate; the log therefore gains the transition's two entries again. If
    /// `current_date` lies past the due date plus the grace period, pro-rata
    /// penalty interest on the principal over the whole days overdue is
    /// added to the accrued interest and logged.
    ///
    /// Because the due date is recomputed from `current_date` itself, a
    /// contract whose notice and grace periods are non-negative can never be
    /// overdue by this measure, and the penalty branch is never taken; it is
    /// kept because it is the penalty arithmetic the contract defines.
    pub fn apply_penalty(&mut self, current_date: i64) -> (result: Result<(), LoanError>)
        requires
            old(self).wf(),
            old(self).status == Status::Called ==> -(ACCRUED_LIMIT as int) <= old(
                self,
            ).accrued_after_update(current_date as int) <= ACCRUED_LIMIT as int,
            old(self).status == Status::Called ==> current_date + old(self).notice_period + old(
                self,
            ).grace_period <= i64::MAX,
        ensures
            final(self).wf(),
            match result {
                Ok(()) => {
                    &&& old(self).status == Status::Called
                    &&& final(self).status == Status::Called
                    &&& final(self).principal == old(self).principal
                    &&& final(self).accrued_interest@ == old(self).accrued_after_update(
                        current_date as int,
                    )
                    &&& final(self).last_interest_calculation_date == current_date
                    &&& final(self).collateral == old(self).collateral
                    &&& same_parties_and_terms(*old(self), *final(self))
                    &&& final(self).transaction_history@ == old(self).transaction_history@.push(
                        (LogEntry::InterestUpdated {
                            interest: dec(old(self).interest_due(current_date as int)),
                        }),
                    ).push(
                        (LogEntry::MoneyCalled {
                            due_date: (current_date + old(self).notice_period) as i64,
                        }),
                    )
                },
                Err(e) => {
                    &&& e == LoanError::InvalidState
                    &&& old(self).status != Status::Called
                    &&& *final(self) == *old(self)
                },
            },
    {
        if self.status != Status::Called {
            return Err(LoanError::InvalidState);
        }
        let (_total_due, due_date) = self.call_transition(current_date);
        if current_date > due_date + self.grace_period {
            let overdue_delta: i128 = (current_date as i128) - (due_date as i128)
                - (self.grace_period as i128);
            let days_overdue: i128 = overdue_delta / SECONDS_PER_DAY;
            proof {
                lemma_div_trunc_abs_le(
                    overdue_delta as int,
                    SECONDS_PER_DAY as int,
                    u64::MAX as int * 2,
                );
            }
            let penalty_raw: i128 = pro_rata_amount(
                self.principal.raw,
                self.penalty_rate.raw,
                days_overdue,
            );
            self.accrued_interest = Decimal { raw: self.accrued_interest.raw + penalty_raw };
            let penalty = Decimal { raw: penalty_raw };
            self.transaction_history.push(LogEntry::PenaltyApplied { penalty });
        }
        Ok(())
    }

    /// Attaches collateral. The slot holds at most one asset: while one is
    /// attached, another attempt fails with [`LoanError::AlreadyExists`] and
    /// changes nothing.
    pub fn add_collateral(&mut self, collateral: ResourceId) -> (result: Result<(), LoanError>)
        ensures
            old(self).wf() ==> final(self).wf(),
            match result {
                Ok(()) => {
                    &&& old(self).collateral is None
                    &&& final(self).collateral == Some(collateral)
                    &&& final(self).status == old(self).status
                    &&& final(self).principal == old(self).principal
                    &&& final(self).accrued_interest == old(self).accrued_interest
                    &&& final(self).last_interest_calculation_date == old(
                        self,
                    ).last_interest_calculation_date
                    &&& same_parties_and_terms(*old(self), *final(self))
                    &&& final(self).transaction_history@ == old(self).transaction_history@.push(
                        LogEntry::CollateralAdded,
                    )
                },
                Err(e) => {
                    &&& e == LoanError::AlreadyExists
                    &&& old(self).collateral is Some
                    &&& *final(self) == *old(self)
                },
            },
    {
        if self.collateral.is_some() {
            return Err(LoanError::AlreadyExists);
        }
        self.collateral = Some(collateral);
        self.transaction_history.push(LogEntry::CollateralAdded);
        Ok(())
    }

    /// Takes the collateral back, clearing the slot. Allowed only once the
    /// loan is fully repaid: while any principal is outstanding it fails
    /// with [`LoanError::InvalidState`] — whatever the status — and changes
    /// nothing. Returns the collateral that was held, if any; the removal is
    /// logged only when one actually was.
    pub fn remove_collateral(&mut self) -> (result: Result<Option<ResourceId>, LoanError>)
        ensures
            old(self).wf() ==> final(self).wf(),
            match result {
                Ok(taken) => {
                    &&& old(self).principal@ == 0
                    &&& taken == old(self).collateral
                    &&& final(self).collateral is None
                    &&& final(self).status == old(self).status
                    &&& final(self).principal == old(self).principal
                    &&& final(self).accrued_interest == old(self).accrued_interest
                    &&& final(self).last_interest_calculation_date == old(
                        self,
                    ).last_interest_calculation_date
                    &&& same_parties_and_terms(*old(self), *final(self))
                    &&& final(self).transaction_history@ == if old(self).collateral is Some {
                        old(self).transaction_history@.push(LogEntry::CollateralRemoved)
                    } else {
                        old(self).transaction_history@
                    }
                },
                Err(e) => {
                    &&& e == LoanError::InvalidState
                    &&& old(self).principal@ != 0
                    &&& *final(self) == *old(self)
                },
            },
    {
        if self.principal.raw != 0 {
            return Err(LoanError::InvalidState);
        }
        let taken = self.collateral.take();
        if taken.is_some() {
            self.transaction_history.push(LogEntry::CollateralRemoved);
        }
        Ok(taken)
    }

    /// A read-only snapshot of the contract: lender, borrower, principal,
    /// interest rate, start date, accrued interest, status, and collateral.
    pub fn get_details(&self) -> (details: (
        ResourceId,
        ResourceId,
        Decimal,
        Decimal,
        i64,
        Decimal,
        Status,
        Option<ResourceId>,
    ))
        ensures
            details == (
                self.lender,
                self.borrower,
                self.principal,
                self.interest_rate,
                self.start_date,
                self.accrued_interest,
                self.status,
                self.collateral,
            ),
    {
        (
            self.lender,
            self.borrower,
            self.principal,
            self.interest_rate,
            self.start_date,
            self.accrued_interest,
            self.status,
            self.collateral,
        )
    }

    /// A read-only copy of the whole transaction log, oldest entry first.
    pub fn get_transaction_history(&self) -> (history: Vec<LogEntry>)
        ensures
            history@ == self.transaction_history@,
    {
        let mut history: Vec<LogEntry> = Vec::new();
        let mut i: usize = 0;
        while i < self.transaction_history.len()
            invariant
                i <= self.transaction_history.len(),
                history@ == self.transaction_history@.subrange(0, i as int),
            decreases self.transaction_history.len() - i,
        {
            history.push(self.transaction_history[i]);
            proof {
                assert(history@ =~= self.transaction_history@.subrange(0, i + 1 as int));
            }
            i = i + 1;
        }
        proof {
            assert(self.transaction_history@.subrange(
                0,
                self.transaction_history@.len() as int,
            ) =~= self.transaction_history@);
        }
        history
    }
}

/// Computes [`pro_rata`] interest on raw fixed-point values, free of
/// overflow under the given bounds.
fn pro_rata_amount(amount: i128, rate: i128, days: i128) -> (interest: i128)
    requires
        0 <= amount <= AMOUNT_MAX,
        0 <= rate <= RATE_MAX,
        -MAX_DAY_SPAN <= days <= MAX_DAY_SPAN,
    ensures
        interest as int == pro_rata(amount as int, rate as int, days as int),
        -(ACCRUED_LIMIT as int) * 100 <= interest as int <= (ACCRUED_LIMIT as int) * 100,
{
    proof {
        assert(amount * rate <= AMOUNT_MAX * RATE_MAX) by (nonlinear_arith)
            requires
                0 <= amount <= AMOUNT_MAX,
                0 <= rate <= RATE_MAX,
        ;
        assert(amount * rate >= 0) by (nonlinear_arith)
            requires
                amount >= 0,
                rate >= 0,
        ;
    }
    let product: i128 = amount * rate;
    let scaled: i128 = product / SCALE;
    proof {
        lemma_div_trunc_abs_le(product as int, SCALE as int, AMOUNT_MAX as int * RATE_MAX as int);
        assert(scaled as int == div_trunc(product as int, SCALE as int));
        let scaled_max: int = AMOUNT_MAX as int * RATE_MAX as int / SCALE as int;
        assert(-scaled_max * MAX_DAY_SPAN <= scaled * days <= scaled_max * MAX_DAY_SPAN)
            by (nonlinear_arith)
            requires
                -scaled_max <= scaled as int <= scaled_max,
                -MAX_DAY_SPAN <= days <= MAX_DAY_SPAN,
                scaled_max >= 0,
        ;
    }
    let pro_rated: i128 = scaled * days;
    proof {
        lemma_div_trunc_abs_le(
            pro_rated as int,
            DAYS_PER_YEAR as int,
            AMOUNT_MAX as int * RATE_MAX as int / SCALE as int * MAX_DAY_SPAN as int,
        );
    }
    pro_rated / DAYS_PER_YEAR
}

/// Law: bringing interest current at the date already stored as the last
/// calculation date adds nothing. Zero whole days have elapsed, so a second
/// `update_accrued_interest` at the date of the first — whose `ensures`
/// makes `accrued_after_update` the new accrued interest and `current_date`
/// the new last calculation date — leaves the accrued interest as it stood.
pub proof fn lemma_update_at_last_date_adds_nothing(contract: CallMoney, current_date: int)
    requires
        contract.last_interest_calculation_date == current_date,
    ensures
        contract.accrued_after_update(current_date) == contract.accrued_interest@,
{
    assert(elapsed_days(contract.last_interest_calculation_date as int, current_date) == 0);
    assert(contract.interest_due(current_date) == 0);
}

/// Law: with time moving forwards, bringing interest current never lowers
/// the accrued interest. For any well-formed contract and any date not
/// before the stored last calculation date, `accrued_after_update` — the
/// accrued interest that `update_accrued_interest`'s `ensures` delivers — is
/// at least the accrued interest before; across repeated updates with
/// non-decreasing dates the accrued interest is therefore non-decreasing.
pub proof fn lemma_accrual_monotone(contract: CallMoney, current_date: int)
    requires
        contract.wf(),
        contract.last_interest_calculation_date <= current_date,
    ensures
        contract.accrued_after_update(current_date) >= contract.accrued_interest@,
{
    let delta = current_date - contract.last_interest_calculation_date;
    lemma_div_trunc_bounds(delta, SECONDS_PER_DAY as int);
    let days = elapsed_days(contract.last_interest_calculation_date as int, current_date);
    assert(contract.principal@ * contract.interest_rate@ >= 0) by (nonlinear_arith)
        requires
            contract.principal@ >= 0,
            contract.interest_rate@ >= 0,
    ;
    lemma_div_trunc_bounds(contract.principal@ * contract.interest_rate@, SCALE as int);
    let scaled = div_trunc(contract.principal@ * contract.interest_rate@, SCALE as int);
    assert(scaled * days >= 0) by (nonlinear_arith)
        requires
            scaled >= 0,
            days >= 0,
    ;
    lemma_div_trunc_bounds(scaled * days, DAYS_PER_YEAR as int);
}

/// Law: the previous one chained over two calls. `after_first` is a contract
/// as `update_accrued_interest` at `first_date` leaves it — its `ensures`
/// grants every premise below — so a second update at any `second_date` not
/// before the first still never lowers the accrued interest below where it
/// stood before either call. Repeating the argument extends it to any run of
/// updates with non-decreasing dates.
pub proof fn lemma_accrual_monotone_chain(
    before: CallMoney,
    after_first: CallMoney,
    first_date: int,
    second_date: int,
)
    requires
        before.wf(),
        after_first.wf(),
        before.last_interest_calculation_date <= first_date <= second_date,
        after_first.principal == before.principal,
        after_first.interest_rate == before.interest_rate,
        after_first.last_interest_calculation_date == first_date,
        after_first.accrued_interest@ == before.accrued_after_update(first_date),
    ensures
        after_first.accrued_after_update(second_date) >= before.accrued_interest@,
{
    lemma_accrual_monotone(before, first_date);
    lemma_accrual_monotone(after_first, second_date);
}

} // verus!
