use trx_processor::account::Account;
use trx_processor::amount::{pad_fraction, Amount, AmountError};
use trx_processor::processor::TransactionProcessor;
use trx_processor::transaction::{Transaction, TransactionState, TransactionType};

fn dec(mantissa: i128, scale: u32) -> Amount {
    Amount::new(mantissa, scale).unwrap()
}

fn same(a: &Amount, b: &Amount) -> bool {
    !a.lt(b) && !b.lt(a)
}

#[test]
fn amount_new_accepts_what_fits() {
    let max: i128 = 79_228_162_514_264_337_593_543_950_335;
    assert!(Amount::new(max, 28).is_some());
    assert!(Amount::new(-max, 0).is_some());
    assert!(Amount::new(max + 1, 0).is_none());
    assert!(Amount::new(-max - 1, 0).is_none());
    assert!(Amount::new(1, 29).is_none());
    assert!(Amount::new(i128::MAX, u32::MAX).is_none());
    let a = dec(-12345, 3);
    assert_eq!(a.mantissa(), -12345);
    assert_eq!(a.scale(), 3);
    assert_eq!(Amount::zero().mantissa(), 0);
    assert_eq!(Amount::zero().scale(), 0);
}

#[test]
fn amounts_are_ordered_by_value() {
    assert!(dec(15, 1).lt(&dec(2, 0)));
    assert!(!dec(2, 0).lt(&dec(15, 1)));
    assert!(dec(-1, 0).lt(&dec(1, 4)));
    assert!(dec(199, 2).lt(&dec(2, 0)));
    // 1.50 and 1.5 are the same number.
    assert!(same(&dec(150, 2), &dec(15, 1)));
    assert!(!dec(5, 0).lt(&dec(5, 0)));
    assert!(dec(-2, 0).lt(&dec(-15, 1)));
}

#[test]
fn amount_sign() {
    assert!(dec(1, 28).is_positive());
    assert!(!dec(0, 0).is_positive());
    assert!(!dec(0, 5).is_positive());
    assert!(!dec(-1, 0).is_positive());
}

#[test]
fn amounts_add_and_subtract_exactly() {
    let sum = dec(15, 1).checked_add(&dec(225, 2)).unwrap();
    assert_eq!((sum.mantissa(), sum.scale()), (375, 2));
    let difference = dec(15, 1).checked_sub(&dec(225, 2)).unwrap();
    assert_eq!((difference.mantissa(), difference.scale()), (-75, 2));
    let difference = dec(44444, 4).checked_sub(&dec(22222, 4)).unwrap();
    assert_eq!((difference.mantissa(), difference.scale()), (22222, 4));
    let nothing = dec(7, 0).checked_sub(&dec(7, 0)).unwrap();
    assert_eq!(nothing.mantissa(), 0);
}

#[test]
fn amounts_overflow_to_none() {
    let max = dec(79_228_162_514_264_337_593_543_950_335, 0);
    assert!(max.checked_add(&dec(1, 0)).is_none());
    assert!(max.checked_add(&max).is_none());
    assert!(dec(-1, 0).checked_sub(&max).is_none());
    assert!(max.checked_sub(&max).is_some());
}

#[test]
fn amounts_are_written_with_four_fractional_digits() {
    assert_eq!(dec(0, 0).to_rounded_string(), "0.0000");
    assert_eq!(dec(0, 2).to_rounded_string(), "0.0000");
    assert_eq!(dec(750, 0).to_rounded_string(), "750.0000");
    assert_eq!(dec(22222, 4).to_rounded_string(), "2.2222");
    assert_eq!(dec(15, 1).to_rounded_string(), "1.5000");
    assert_eq!(dec(123456, 5).to_rounded_string(), "1.2346");
    // A tie goes to the even digit.
    assert_eq!(dec(222225, 5).to_rounded_string(), "2.2222");
    assert_eq!(dec(222235, 5).to_rounded_string(), "2.2224");
    assert_eq!(dec(-5, 1).to_rounded_string(), "-0.5000");
    assert_eq!(dec(1, 28).to_rounded_string(), "0.0000");
    assert_eq!(
        dec(79_228_162_514_264_337_593_543_950_335, 0).to_rounded_string(),
        "79228162514264337593543950335.0000"
    );
}

#[test]
fn amounts_are_rounded_to_the_digits_asked_for() {
    let r = dec(123456, 5).round_dp(4);
    assert_eq!((r.mantissa(), r.scale()), (12346, 4));
    let r = dec(123456, 5).round_dp(2);
    assert_eq!((r.mantissa(), r.scale()), (123, 2));
    let r = dec(125, 2).round_dp(1);
    assert_eq!((r.mantissa(), r.scale()), (12, 1));
    let r = dec(135, 2).round_dp(1);
    assert_eq!((r.mantissa(), r.scale()), (14, 1));
    let r = dec(15, 1).round_dp(4);
    assert_eq!((r.mantissa(), r.scale()), (15, 1));
    let r = dec(0, 9).round_dp(4);
    assert_eq!((r.mantissa(), r.scale()), (0, 4));
    let r = dec(-15, 1).round_dp(0);
    assert_eq!((r.mantissa(), r.scale()), (-2, 0));
}

#[test]
fn amounts_are_written_with_all_their_digits() {
    assert_eq!(dec(0, 0).to_text(), "0");
    assert_eq!(dec(0, 3).to_text(), "0.000");
    assert_eq!(dec(750, 0).to_text(), "750");
    assert_eq!(dec(5, 3).to_text(), "0.005");
    assert_eq!(dec(-5, 1).to_text(), "-0.5");
    assert_eq!(dec(123456, 5).to_text(), "1.23456");
    assert_eq!(dec(-42, 0).to_text(), "-42");
}

#[test]
fn fractions_are_padded_with_zeros() {
    assert_eq!(pad_fraction(String::from("750"), 0, 4), "750.0000");
    assert_eq!(pad_fraction(String::from("1.5"), 1, 4), "1.5000");
    assert_eq!(pad_fraction(String::from("2.2222"), 4, 4), "2.2222");
    assert_eq!(pad_fraction(String::from("-0.25"), 2, 3), "-0.250");
    assert_eq!(pad_fraction(String::from("7"), 0, 0), "7");
    assert_eq!(pad_fraction(String::from("7"), 0, 1), "7.0");
    assert_eq!(pad_fraction(String::from("1.23456"), 5, 4), "1.23456");
}

#[test]
fn sufficient_funds_are_always_withdrawn() {
    let max = dec(79_228_162_514_264_337_593_543_950_335, 0);
    let amounts = [dec(0, 0), dec(1, 28), dec(5, 1), dec(22222, 4), dec(1, 0), max];
    for have in amounts.iter() {
        for take in amounts.iter() {
            let mut account = Account { client_id: 1, available: *have, held: *have, locked: false };
            assert_eq!(account.withdraw(*take), !have.lt(take));
            assert_eq!(account.chargeback(*take), !have.lt(take));
        }
    }
}

#[test]
fn new_account_is_empty() {
    let account = Account::new(7);
    assert_eq!(account.client_id, 7);
    assert_eq!(account.available.mantissa(), 0);
    assert_eq!(account.held.mantissa(), 0);
    assert!(!account.locked);
    assert_eq!(account.total().unwrap().mantissa(), 0);
}

#[test]
fn account_deposit_and_withdraw() {
    let mut account = Account::new(1);
    assert!(account.deposit(dec(100, 0)));
    assert!(account.deposit(dec(25, 1)));
    assert!(same(&account.available, &dec(1025, 1)));
    assert!(!account.withdraw(dec(10251, 2)));
    assert!(same(&account.available, &dec(1025, 1)));
    assert!(account.withdraw(dec(1025, 1)));
    assert_eq!(account.available.mantissa(), 0);
    assert_eq!(account.held.mantissa(), 0);
}

#[test]
fn account_hold_release_chargeback() {
    let mut account = Account::new(1);
    assert!(account.deposit(dec(100, 0)));
    assert!(!account.hold_funds(dec(101, 0)));
    assert!(account.hold_funds(dec(60, 0)));
    assert!(same(&account.available, &dec(40, 0)));
    assert!(same(&account.held, &dec(60, 0)));
    assert!(same(&account.total().unwrap(), &dec(100, 0)));

    assert!(!account.release_funds(dec(61, 0)));
    assert!(account.release_funds(dec(20, 0)));
    assert!(same(&account.available, &dec(60, 0)));
    assert!(same(&account.held, &dec(40, 0)));

    assert!(!account.chargeback(dec(41, 0)));
    assert!(!account.locked);
    assert!(account.chargeback(dec(40, 0)));
    assert!(account.locked);
    assert!(same(&account.available, &dec(60, 0)));
    assert_eq!(account.held.mantissa(), 0);

    // Locked: no deposit, no withdrawal, but funds can still be held.
    assert!(!account.deposit(dec(1, 0)));
    assert!(!account.withdraw(dec(1, 0)));
    assert!(account.hold_funds(dec(10, 0)));
    assert!(same(&account.held, &dec(10, 0)));
    assert!(account.locked);
}

#[test]
fn account_output_row() {
    let mut account = Account::new(3);
    account.deposit(dec(15, 1));
    account.hold_funds(dec(5, 1));
    let row = account.to_output().unwrap();
    assert_eq!(row.client, 3);
    assert!(same(&row.available, &dec(1, 0)));
    assert!(same(&row.held, &dec(5, 1)));
    assert!(same(&row.total, &dec(15, 1)));
    assert!(!row.locked);
}

#[test]
fn account_total_overflow_gives_no_row() {
    let max = dec(79_228_162_514_264_337_593_543_950_335, 0);
    let account = Account { client_id: 1, available: max, held: max, locked: false };
    assert!(account.total().is_none());
    assert!(account.to_output().is_none());
}

#[test]
fn new_transaction_is_normal() {
    let t = Transaction::new(9, 2, TransactionType::Deposit, dec(5, 0));
    assert_eq!(t.tx_id, 9);
    assert_eq!(t.client_id, 2);
    assert_eq!(t.transaction_type, TransactionType::Deposit);
    assert_eq!(t.amount.mantissa(), 5);
    assert_eq!(t.state, TransactionState::Normal);
}

#[test]
fn commit_takes_all_or_nothing() {
    let mut account = Account::new(1);
    assert!(!account.commit(Some(dec(5, 0)), None, true));
    assert!(!account.commit(None, Some(dec(5, 0)), false));
    assert_eq!(account.available.mantissa(), 0);
    assert_eq!(account.held.mantissa(), 0);
    assert!(!account.locked);
    assert!(account.commit(Some(dec(5, 0)), Some(dec(7, 1)), false));
    assert_eq!((account.available.mantissa(), account.available.scale()), (5, 0));
    assert_eq!((account.held.mantissa(), account.held.scale()), (7, 1));
    assert!(!account.locked);
    assert!(account.commit(Some(dec(1, 0)), Some(dec(2, 0)), true));
    assert!(account.locked);
    assert!(account.commit(Some(dec(3, 0)), Some(dec(4, 0)), false));
    assert!(account.locked);
    assert_eq!(account.client_id, 1);
}

#[test]
fn amount_fields() {
    assert!(matches!(Amount::parse_field(""), Ok(None)));
    assert!(matches!(Amount::parse_field("   "), Ok(None)));
    let a = Amount::parse_field("  1.50 ").unwrap().unwrap();
    assert_eq!((a.mantissa(), a.scale()), (150, 2));
    let a = Amount::parse_field("-12").unwrap().unwrap();
    assert_eq!((a.mantissa(), a.scale()), (-12, 0));
    let a = Amount::parse_field("2.2222").unwrap().unwrap();
    assert_eq!((a.mantissa(), a.scale()), (22222, 4));
    assert_eq!(Amount::parse_field("abc").unwrap_err(), AmountError::Invalid);
    assert_eq!(Amount::parse_field("1.2.3").unwrap_err(), AmountError::Invalid);
    assert_eq!(Amount::parse_field(" x ").unwrap_err(), AmountError::Invalid);
}

#[test]
fn transaction_kinds_are_read_in_any_case() {
    assert_eq!(TransactionType::parse("deposit"), Some(TransactionType::Deposit));
    assert_eq!(TransactionType::parse("DEPOSIT"), Some(TransactionType::Deposit));
    assert_eq!(TransactionType::parse("Withdrawal"), Some(TransactionType::Withdrawal));
    assert_eq!(TransactionType::parse("dIsPuTe"), Some(TransactionType::Dispute));
    assert_eq!(TransactionType::parse("resolve"), Some(TransactionType::Resolve));
    assert_eq!(TransactionType::parse("ChargeBack"), Some(TransactionType::Chargeback));
    assert_eq!(TransactionType::parse("deposits"), None);
    assert_eq!(TransactionType::parse(""), None);
    assert_eq!(TransactionType::parse("refund"), None);
    for kind in [
        TransactionType::Deposit,
        TransactionType::Withdrawal,
        TransactionType::Dispute,
        TransactionType::Resolve,
        TransactionType::Chargeback,
    ] {
        assert_eq!(TransactionType::parse(kind.name()), Some(kind));
    }
    assert_eq!(TransactionType::Chargeback.name(), "chargeback");
}

#[test]
fn order_holds_across_the_whole_range() {
    let max = dec(79_228_162_514_264_337_593_543_950_335, 0);
    let tiny = dec(1, 28);
    assert!(tiny.lt(&max));
    assert!(!max.lt(&tiny));
    assert!(dec(-1, 28).lt(&tiny));
    assert!(dec(-79_228_162_514_264_337_593_543_950_335, 0).lt(&dec(-1, 28)));
    assert!(dec(79_228_162_514_264_337_593_543_950_335, 28).lt(&dec(8, 0)));
    assert!(!dec(8, 0).lt(&dec(79_228_162_514_264_337_593_543_950_335, 28)));
    assert!(same(&dec(10_000_000_000, 10), &dec(1, 0)));
}

#[test]
fn sums_and_differences_keep_their_sign() {
    let max: i128 = 79_228_162_514_264_337_593_543_950_335;
    let values = [
        dec(0, 0),
        dec(0, 7),
        dec(1, 28),
        dec(4, 1),
        dec(5, 1),
        dec(15, 1),
        dec(22222, 4),
        dec(4_294_967_296, 3),
        dec(18_446_744_073_709_551_616, 9),
        dec(max, 28),
        dec(max, 1),
        dec(max - 1, 0),
        dec(max, 0),
    ];
    for a in values.iter() {
        for b in values.iter() {
            if let Some(sum) = a.checked_add(b) {
                assert!(sum.mantissa() >= 0);
                assert!(!sum.lt(a) && !sum.lt(b));
            }
            if !a.lt(b) {
                let difference = a.checked_sub(b).unwrap();
                assert!(difference.mantissa() >= 0);
                assert!(!a.lt(&difference));
            }
        }
    }
}

#[test]
fn default_engine_is_empty() {
    let processor = TransactionProcessor::default();
    assert!(processor.account(0).is_none());
    assert!(processor.transaction(0).is_none());
    assert_eq!(processor.output_accounts().unwrap().len(), 0);
}

#[test]
fn amount_field_from_its_parts() {
    assert!(matches!(Amount::field_of("", None), Ok(None)));
    assert!(matches!(Amount::field_of("", Some(dec(1, 0))), Ok(None)));
    let a = Amount::field_of("7.5", Some(dec(75, 1))).unwrap().unwrap();
    assert_eq!((a.mantissa(), a.scale()), (75, 1));
    assert_eq!(Amount::field_of("x", None).unwrap_err(), AmountError::Invalid);
}

#[test]
fn blank_fields_hold_no_amount() {
    for blank in ["", " ", "\t", " \t\r\n ", "\u{a0}", "\u{2003}\u{3000}", "\u{85}\u{1680}\u{2028}\u{205f}"] {
        assert!(matches!(Amount::parse_field(blank), Ok(None)));
    }
    let a = Amount::parse_field("\u{2009}3.25\u{a0}\n").unwrap().unwrap();
    assert_eq!((a.mantissa(), a.scale()), (325, 2));
    // A zero-width space is no white space.
    assert_eq!(Amount::parse_field("\u{200b}").unwrap_err(), AmountError::Invalid);
    assert_eq!(Amount::parse_field("1 2").unwrap_err(), AmountError::Invalid);
}
