use call_money::contract::{CallMoney, LoanError, LogEntry, ResourceId, Status};
use call_money::decimal::Decimal;

const DAY: i64 = 86_400;
const YEAR: i64 = 365 * DAY;

fn lender() -> ResourceId {
    ResourceId { id: 1 }
}

fn borrower() -> ResourceId {
    ResourceId { id: 2 }
}

/// The contract of the concrete scenarios: principal 1000, interest rate
/// 0.05, start date 0, notice period one day, no grace period, penalty
/// rate 0.1.
fn scenario_contract() -> CallMoney {
    let made = CallMoney::instantiate_call_money(
        lender(),
        borrower(),
        Decimal::from_int(1000),
        Decimal::from_raw(50_000),
        0,
        DAY,
        0,
        Decimal::from_raw(100_000),
    );
    match made {
        Ok(c) => c,
        Err(_) => panic!("scenario parameters are valid"),
    }
}

#[test]
fn creation_gives_active_contract_with_one_entry() {
    let c = scenario_contract();
    let (l, b, principal, rate, start, accrued, status, collateral) = c.get_details();
    assert_eq!(l, lender());
    assert_eq!(b, borrower());
    assert_eq!(principal, Decimal::from_int(1000));
    assert_eq!(rate, Decimal::from_raw(50_000));
    assert_eq!(start, 0);
    assert_eq!(accrued, Decimal::from_raw(0));
    assert_eq!(status, Status::Active);
    assert_eq!(collateral, None);
    let history = c.get_transaction_history();
    assert_eq!(history, vec![LogEntry::ContractInitiated]);
}

#[test]
fn creation_rejects_bad_parameters() {
    let cases = [
        (Decimal::from_int(0), Decimal::from_raw(50_000), 0i64, 0i64, Decimal::from_raw(0)),
        (Decimal::from_int(-5), Decimal::from_raw(50_000), 0, 0, Decimal::from_raw(0)),
        (Decimal::from_int(1000), Decimal::from_raw(0), 0, 0, Decimal::from_raw(0)),
        (Decimal::from_int(1000), Decimal::from_int(1), 0, 0, Decimal::from_raw(0)),
        (Decimal::from_int(1000), Decimal::from_raw(-1), 0, 0, Decimal::from_raw(0)),
        (Decimal::from_int(1000), Decimal::from_raw(50_000), -1, 0, Decimal::from_raw(0)),
        (Decimal::from_int(1000), Decimal::from_raw(50_000), 0, -1, Decimal::from_raw(0)),
        (Decimal::from_int(1000), Decimal::from_raw(50_000), 0, 0, Decimal::from_raw(-1)),
    ];
    for (principal, rate, notice, grace, penalty) in cases {
        let made = CallMoney::instantiate_call_money(
            lender(),
            borrower(),
            principal,
            rate,
            0,
            notice,
            grace,
            penalty,
        );
        match made {
            Ok(_) => panic!("invalid parameters were accepted"),
            Err(e) => assert_eq!(e, LoanError::InvalidParameter),
        }
    }
}

#[test]
fn year_of_interest_accrues_fifty() {
    let mut c = scenario_contract();
    let interest = c.update_accrued_interest(YEAR);
    assert_eq!(interest, Decimal::from_int(50));
    let (_, _, principal, _, _, accrued, _, _) = c.get_details();
    assert_eq!(principal, Decimal::from_int(1000));
    assert_eq!(accrued, Decimal::from_int(50));
    let history = c.get_transaction_history();
    assert_eq!(
        history,
        vec![
            LogEntry::ContractInitiated,
            LogEntry::InterestUpdated { interest: Decimal::from_int(50) },
        ]
    );
}

#[test]
fn interest_counts_whole_days_only() {
    let mut c = scenario_contract();
    // A day and a half elapses: only one whole day accrues.
    // 1000 * 0.05 / 365 truncates to 0.136986 per day.
    let interest = c.update_accrued_interest(DAY + DAY / 2);
    assert_eq!(interest, Decimal::from_raw(136_986));
}

#[test]
fn update_at_same_date_adds_nothing() {
    let mut c = scenario_contract();
    let first = c.update_accrued_interest(YEAR);
    assert_eq!(first, Decimal::from_int(50));
    let second = c.update_accrued_interest(YEAR);
    assert_eq!(second, Decimal::from_raw(0));
    let (_, _, _, _, _, accrued, _, _) = c.get_details();
    assert_eq!(accrued, Decimal::from_int(50));
}

#[test]
fn accrual_is_monotone_over_forward_dates() {
    let mut c = scenario_contract();
    let mut last = Decimal::from_raw(0);
    for date in [0, DAY, DAY, 30 * DAY, YEAR, 2 * YEAR] {
        c.update_accrued_interest(date);
        let (_, _, _, _, _, accrued, _, _) = c.get_details();
        assert!(accrued.raw() >= last.raw());
        last = accrued;
    }
}

#[test]
fn backdated_update_reduces_accrued_interest() {
    let made = CallMoney::instantiate_call_money(
        lender(),
        borrower(),
        Decimal::from_int(1000),
        Decimal::from_raw(50_000),
        10 * DAY,
        DAY,
        0,
        Decimal::from_raw(100_000),
    );
    let mut c = match made {
        Ok(c) => c,
        Err(_) => panic!("parameters are valid"),
    };
    // Ten days backwards: minus ten days of interest, truncated towards zero.
    let interest = c.update_accrued_interest(0);
    assert_eq!(interest, Decimal::from_raw(-1_369_863));
    let (_, _, _, _, _, accrued, _, _) = c.get_details();
    assert_eq!(accrued, Decimal::from_raw(-1_369_863));
}

#[test]
fn full_repayment_clears_the_loan() {
    let mut c = scenario_contract();
    c.update_accrued_interest(YEAR);
    let excess = c.repay(Decimal::from_int(1050), YEAR);
    assert_eq!(excess, Decimal::from_raw(0));
    let (_, _, principal, _, _, accrued, status, _) = c.get_details();
    assert_eq!(principal, Decimal::from_raw(0));
    assert_eq!(accrued, Decimal::from_raw(0));
    assert_eq!(status, Status::Repaid);
    let history = c.get_transaction_history();
    assert_eq!(
        history,
        vec![
            LogEntry::ContractInitiated,
            LogEntry::InterestUpdated { interest: Decimal::from_int(50) },
            LogEntry::InterestUpdated { interest: Decimal::from_raw(0) },
            LogEntry::LoanFullyRepaid { excess: Decimal::from_raw(0) },
        ]
    );
}

#[test]
fn overpayment_comes_back_as_excess() {
    let mut c = scenario_contract();
    let excess = c.repay(Decimal::from_int(1100), YEAR);
    // Everything due is 1050; the 50 above it comes back exactly.
    assert_eq!(excess, Decimal::from_int(50));
    let (_, _, principal, _, _, accrued, status, _) = c.get_details();
    assert_eq!(principal, Decimal::from_raw(0));
    assert_eq!(accrued, Decimal::from_raw(0));
    assert_eq!(status, Status::Repaid);
}

#[test]
fn partial_repayment_pays_interest_then_principal() {
    let mut c = scenario_contract();
    let excess = c.repay(Decimal::from_int(500), YEAR);
    assert_eq!(excess, Decimal::from_raw(0));
    // 500 against 50 of interest and then 450 of the 1000 principal.
    let (_, _, principal, _, _, accrued, status, _) = c.get_details();
    assert_eq!(principal, Decimal::from_int(550));
    assert_eq!(accrued, Decimal::from_raw(0));
    assert_eq!(status, Status::Active);
    let history = c.get_transaction_history();
    assert_eq!(history[2], LogEntry::PartialRepayment { amount: Decimal::from_int(500) });
}

#[test]
fn partial_repayment_conserves_what_is_owed() {
    let mut c = scenario_contract();
    let excess = c.repay(Decimal::from_int(30), YEAR);
    assert_eq!(excess, Decimal::from_raw(0));
    // 30 covers part of the 50 of interest; the principal is untouched and
    // principal + accrued interest is 1050 - 30.
    let (_, _, principal, _, _, accrued, status, _) = c.get_details();
    assert_eq!(principal, Decimal::from_int(1000));
    assert_eq!(accrued, Decimal::from_int(20));
    assert_eq!(status, Status::Active);
    assert_eq!(principal.raw() + accrued.raw(), Decimal::from_int(1020).raw());
}

#[test]
fn repayment_is_accepted_on_a_settled_loan() {
    let mut c = scenario_contract();
    c.repay(Decimal::from_int(1050), YEAR);
    // Nothing is owed any more: the whole payment comes straight back.
    let excess = c.repay(Decimal::from_int(100), YEAR);
    assert_eq!(excess, Decimal::from_int(100));
    let (_, _, principal, _, _, accrued, status, _) = c.get_details();
    assert_eq!(principal, Decimal::from_raw(0));
    assert_eq!(accrued, Decimal::from_raw(0));
    assert_eq!(status, Status::Repaid);
}

#[test]
fn calling_the_loan_sets_due_date_and_status() {
    let mut c = scenario_contract();
    let (total_due, due_date) = match c.call_money(YEAR) {
        Ok(outcome) => outcome,
        Err(_) => panic!("an active loan can be called"),
    };
    assert_eq!(total_due, Decimal::from_int(1050));
    assert_eq!(due_date, YEAR + DAY);
    let (_, _, _, _, _, accrued, status, _) = c.get_details();
    assert_eq!(accrued, Decimal::from_int(50));
    assert_eq!(status, Status::Called);
    let history = c.get_transaction_history();
    assert_eq!(
        history,
        vec![
            LogEntry::ContractInitiated,
            LogEntry::InterestUpdated { interest: Decimal::from_int(50) },
            LogEntry::MoneyCalled { due_date: YEAR + DAY },
        ]
    );
}

#[test]
fn calling_a_called_loan_fails() {
    let mut c = scenario_contract();
    assert!(c.call_money(YEAR).is_ok());
    let before = c.get_transaction_history();
    match c.call_money(YEAR + DAY) {
        Ok(_) => panic!("a called loan must not be callable again"),
        Err(e) => assert_eq!(e, LoanError::InvalidState),
    }
    // The failure changed nothing.
    assert_eq!(c.get_transaction_history(), before);
    let (_, _, _, _, _, _, status, _) = c.get_details();
    assert_eq!(status, Status::Called);
}

#[test]
fn calling_a_repaid_loan_fails() {
    let mut c = scenario_contract();
    c.repay(Decimal::from_int(1050), YEAR);
    match c.call_money(YEAR) {
        Ok(_) => panic!("a repaid loan must not be callable"),
        Err(e) => assert_eq!(e, LoanError::InvalidState),
    }
}

#[test]
fn penalty_on_an_uncalled_loan_fails() {
    let mut c = scenario_contract();
    let before = c.get_transaction_history();
    match c.apply_penalty(YEAR) {
        Ok(()) => panic!("a penalty needs a called loan"),
        Err(e) => assert_eq!(e, LoanError::InvalidState),
    }
    assert_eq!(c.get_transaction_history(), before);
}

#[test]
fn penalty_reruns_the_call_and_assesses_nothing() {
    let mut c = scenario_contract();
    assert!(c.call_money(YEAR).is_ok());
    // Two days later. The due date is recomputed from the current date, so
    // the loan is not overdue by the contract's own measure: interest is
    // brought current and the call is logged again, but no penalty is added.
    let date = YEAR + 2 * DAY;
    assert!(c.apply_penalty(date).is_ok());
    let (_, _, _, _, _, accrued, status, _) = c.get_details();
    // 50 from the first year plus two days at 0.136986 per day.
    assert_eq!(accrued, Decimal::from_raw(50_000_000 + 273_972));
    assert_eq!(status, Status::Called);
    let history = c.get_transaction_history();
    assert_eq!(
        history,
        vec![
            LogEntry::ContractInitiated,
            LogEntry::InterestUpdated { interest: Decimal::from_int(50) },
            LogEntry::MoneyCalled { due_date: YEAR + DAY },
            LogEntry::InterestUpdated { interest: Decimal::from_raw(273_972) },
            LogEntry::MoneyCalled { due_date: date + DAY },
        ]
    );
}

#[test]
fn collateral_slot_holds_one_asset() {
    let mut c = scenario_contract();
    let asset = ResourceId { id: 7 };
    assert!(c.add_collateral(asset).is_ok());
    let (_, _, _, _, _, _, _, collateral) = c.get_details();
    assert_eq!(collateral, Some(asset));
    // A second attempt always fails while one is attached.
    match c.add_collateral(ResourceId { id: 8 }) {
        Ok(()) => panic!("the collateral slot was double-filled"),
        Err(e) => assert_eq!(e, LoanError::AlreadyExists),
    }
    let (_, _, _, _, _, _, _, still) = c.get_details();
    assert_eq!(still, Some(asset));
}

#[test]
fn collateral_stays_while_principal_is_outstanding() {
    let mut c = scenario_contract();
    let asset = ResourceId { id: 7 };
    assert!(c.add_collateral(asset).is_ok());
    // Partial repayment leaves principal outstanding: removal fails, in
    // any status.
    c.repay(Decimal::from_int(500), YEAR);
    match c.remove_collateral() {
        Ok(_) => panic!("collateral left while principal was outstanding"),
        Err(e) => assert_eq!(e, LoanError::InvalidState),
    }
    let (_, _, _, _, _, _, _, still) = c.get_details();
    assert_eq!(still, Some(asset));
}

#[test]
fn collateral_leaves_once_the_loan_is_repaid() {
    let mut c = scenario_contract();
    let asset = ResourceId { id: 7 };
    assert!(c.add_collateral(asset).is_ok());
    c.repay(Decimal::from_int(1050), YEAR);
    match c.remove_collateral() {
        Ok(taken) => assert_eq!(taken, Some(asset)),
        Err(_) => panic!("a repaid loan releases its collateral"),
    }
    let (_, _, _, _, _, _, _, collateral) = c.get_details();
    assert_eq!(collateral, None);
    let history = c.get_transaction_history();
    assert_eq!(history[history.len() - 1], LogEntry::CollateralRemoved);
}

#[test]
fn removing_absent_collateral_logs_nothing() {
    let mut c = scenario_contract();
    c.repay(Decimal::from_int(1050), YEAR);
    let before = c.get_transaction_history();
    match c.remove_collateral() {
        Ok(taken) => assert_eq!(taken, None),
        Err(_) => panic!("nothing is outstanding"),
    }
    assert_eq!(c.get_transaction_history(), before);
}

#[test]
fn history_only_grows_and_keeps_its_order() {
    let mut c = scenario_contract();
    let mut seen = c.get_transaction_history();
    c.update_accrued_interest(DAY);
    c.add_collateral(ResourceId { id: 7 }).unwrap();
    c.call_money(2 * DAY).unwrap();
    c.apply_penalty(3 * DAY).unwrap();
    c.repay(Decimal::from_int(2000), 4 * DAY);
    c.remove_collateral().unwrap();
    let full = c.get_transaction_history();
    assert!(full.len() > seen.len());
    // Every earlier prefix is still there, unchanged.
    assert_eq!(&full[..seen.len()], &seen[..]);
    seen = full;
    assert_eq!(seen[0], LogEntry::ContractInitiated);
    assert_eq!(seen[seen.len() - 1], LogEntry::CollateralRemoved);
}

#[test]
fn decimal_constructors_agree() {
    assert_eq!(Decimal::from_int(3), Decimal::from_raw(3_000_000));
    assert_eq!(Decimal::zero(), Decimal::from_raw(0));
    assert_eq!(Decimal::from_int(-2).raw(), -2_000_000);
    assert_eq!(Decimal::from_raw(136_986).raw(), 136_986);
}
