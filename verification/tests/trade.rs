use compi::certificate::{Certificate, LoadedCertificate};
use compi::error::{CertificateError, InvalidArgument};
use compi::identity::Identity;
use compi::payment::{Payment, TradeAction, TradeEvent};
use compi::program::trade_certificate_handler;
use compi::registry::trade_certificate;

fn identity(tag: u8) -> Identity {
    Identity::new([tag; 32])
}

fn record(owner: Identity, price: u64) -> Certificate {
    Certificate {
        creator: identity(1),
        owner,
        price,
        weight_carbon: 100,
        no: vec![52, 50],
        url: "ipfs://abc".encode_utf16().collect(),
    }
}

fn loaded(owner: Identity, price: u64) -> LoadedCertificate {
    Certificate::load(Some(&record(owner, price))).unwrap()
}

/// A payment primitive for the tests: balances by identity, and a transfer
/// that moves the whole amount or nothing.
struct Bank {
    balances: Vec<(Identity, u64)>,
}

impl Bank {
    fn balance(&self, of: Identity) -> u64 {
        self.balances.iter().find(|entry| entry.0 == of).map(|entry| entry.1).unwrap_or(0)
    }

    fn set(&mut self, of: Identity, amount: u64) {
        self.balances.retain(|entry| entry.0 != of);
        self.balances.push((of, amount));
    }

    fn transfer(&mut self, payment: &Payment) -> bool {
        let from = self.balance(payment.from);
        if from < payment.amount {
            return false;
        }
        self.set(payment.from, from - payment.amount);
        let to = self.balance(payment.to);
        self.set(payment.to, to + payment.amount);
        true
    }
}

/// A trade as a host runs it: request, payment, report.
fn run_trade(
    account: &mut Option<Certificate>,
    bank: &mut Bank,
    current_owner: Identity,
    new_owner: Identity,
) -> Result<(), CertificateError> {
    let payer = current_owner;
    match trade_certificate(account, payer, current_owner, new_owner, TradeEvent::Requested) {
        TradeAction::Pay(payment) => {
            let event = if bank.transfer(&payment) {
                TradeEvent::PaymentSettled
            } else {
                TradeEvent::PaymentFailed
            };
            match trade_certificate(account, payer, current_owner, new_owner, event) {
                TradeAction::Commit => Ok(()),
                TradeAction::Reject(error) => Err(error),
                TradeAction::Pay(_) => unreachable!(),
            }
        }
        TradeAction::Reject(error) => Err(error),
        TradeAction::Commit => unreachable!(),
    }
}

#[test]
fn trade_pays_the_owner_then_hands_over() {
    let a = identity(1);
    let b = identity(2);
    let mut bank = Bank { balances: vec![(a, 0), (b, 800)] };
    let mut account = Some(record(a, 500));
    assert_eq!(run_trade(&mut account, &mut bank, a, b), Ok(()));
    assert_eq!(bank.balance(b), 300);
    assert_eq!(bank.balance(a), 500);
    assert_eq!(account, Some(record(b, 500)));
}

#[test]
fn trade_with_exactly_the_price_succeeds() {
    let a = identity(1);
    let b = identity(2);
    let mut bank = Bank { balances: vec![(b, 500)] };
    let mut account = Some(record(a, 500));
    assert_eq!(run_trade(&mut account, &mut bank, a, b), Ok(()));
    assert_eq!(bank.balance(b), 0);
    assert_eq!(account.unwrap().owner, b);
}

#[test]
fn trade_without_the_funds_is_a_payment_error() {
    let a = identity(1);
    let b = identity(2);
    let mut bank = Bank { balances: vec![(a, 0), (b, 10)] };
    let mut account = Some(record(a, 500));
    assert_eq!(run_trade(&mut account, &mut bank, a, b), Err(CertificateError::Payment));
    assert_eq!(account, Some(record(a, 500)));
    assert_eq!(bank.balance(b), 10);
    assert_eq!(bank.balance(a), 0);
}

#[test]
fn trade_by_another_identity_is_unauthorized() {
    let a = identity(1);
    let b = identity(2);
    let c = identity(3);
    let mut bank = Bank { balances: vec![(b, 800)] };
    let mut account = Some(record(a, 500));
    assert_eq!(run_trade(&mut account, &mut bank, c, b), Err(CertificateError::Authorization));
    assert_eq!(account, Some(record(a, 500)));
    assert_eq!(bank.balance(b), 800);
}

#[test]
fn trade_at_price_zero_succeeds_with_an_empty_balance() {
    let a = identity(1);
    let b = identity(2);
    let mut bank = Bank { balances: vec![] };
    let mut account = Some(record(a, 0));
    assert_eq!(run_trade(&mut account, &mut bank, a, b), Ok(()));
    assert_eq!(account, Some(record(b, 0)));
}

#[test]
fn trade_to_the_owner_is_an_invalid_argument() {
    let a = identity(1);
    let mut bank = Bank { balances: vec![(a, 800)] };
    let mut account = Some(record(a, 500));
    assert_eq!(
        run_trade(&mut account, &mut bank, a, a),
        Err(CertificateError::InvalidArgument(InvalidArgument::SameOwner))
    );
    assert_eq!(account, Some(record(a, 500)));
    assert_eq!(bank.balance(a), 800);
}

#[test]
fn trade_checks_the_owner_before_the_new_owner() {
    let a = identity(1);
    let c = identity(3);
    let mut account = Some(record(a, 500));
    let action = trade_certificate(&mut account, c, c, a, TradeEvent::Requested);
    assert_eq!(action, TradeAction::Reject(CertificateError::Authorization));
}

#[test]
fn trade_of_a_missing_record_is_not_found() {
    let a = identity(1);
    let b = identity(2);
    let mut account: Option<Certificate> = None;
    for event in [TradeEvent::Requested, TradeEvent::PaymentSettled, TradeEvent::PaymentFailed] {
        let action = trade_certificate(&mut account, a, a, b, event);
        assert_eq!(action, TradeAction::Reject(CertificateError::NotFound));
        assert_eq!(account, None);
    }
}

#[test]
fn request_orders_the_price_from_the_new_owner_to_the_old() {
    let a = identity(1);
    let b = identity(2);
    let mut account = Some(record(a, 500));
    let action = trade_certificate(&mut account, identity(9), a, b, TradeEvent::Requested);
    assert_eq!(action, TradeAction::Pay(Payment { from: b, to: a, amount: 500 }));
    assert_eq!(account, Some(record(a, 500)));
}

#[test]
fn settled_payment_changes_the_owner_and_nothing_else() {
    let a = identity(1);
    let b = identity(2);
    let mut account = Some(record(a, 500));
    let action = trade_certificate(&mut account, a, a, b, TradeEvent::PaymentSettled);
    assert_eq!(action, TradeAction::Commit);
    assert_eq!(account, Some(record(b, 500)));
}

#[test]
fn failed_payment_changes_nothing() {
    let a = identity(1);
    let b = identity(2);
    let mut account = Some(record(a, 500));
    let action = trade_certificate(&mut account, a, a, b, TradeEvent::PaymentFailed);
    assert_eq!(action, TradeAction::Reject(CertificateError::Payment));
    assert_eq!(account, Some(record(a, 500)));
}

#[test]
fn settled_payment_does_not_pass_the_checks_by() {
    let a = identity(1);
    let b = identity(2);
    let c = identity(3);
    let mut account = Some(record(a, 500));
    let unauthorized = trade_certificate(&mut account, c, c, b, TradeEvent::PaymentSettled);
    assert_eq!(unauthorized, TradeAction::Reject(CertificateError::Authorization));
    let same = trade_certificate(&mut account, a, a, a, TradeEvent::PaymentSettled);
    assert_eq!(
        same,
        TradeAction::Reject(CertificateError::InvalidArgument(InvalidArgument::SameOwner))
    );
    assert_eq!(account, Some(record(a, 500)));
}

#[test]
fn failed_payment_after_failed_checks_keeps_the_owner() {
    let a = identity(1);
    let b = identity(2);
    let c = identity(3);
    let mut account = Some(record(a, 500));
    let action = trade_certificate(&mut account, c, c, b, TradeEvent::PaymentFailed);
    assert_eq!(action, TradeAction::Reject(CertificateError::Authorization));
    assert_eq!(account.unwrap().owner, a);
}

#[test]
fn second_trade_by_the_old_owner_is_unauthorized() {
    let a = identity(1);
    let b = identity(2);
    let c = identity(3);
    let mut bank = Bank { balances: vec![(b, 500), (c, 500)] };
    let mut account = Some(record(a, 500));
    assert_eq!(run_trade(&mut account, &mut bank, a, b), Ok(()));
    assert_eq!(run_trade(&mut account, &mut bank, a, c), Err(CertificateError::Authorization));
    assert_eq!(account, Some(record(b, 500)));
    assert_eq!(bank.balance(c), 500);
}

#[test]
fn new_owner_can_trade_on() {
    let a = identity(1);
    let b = identity(2);
    let c = identity(3);
    let mut bank = Bank { balances: vec![(b, 500), (c, 500)] };
    let mut account = Some(record(a, 500));
    assert_eq!(run_trade(&mut account, &mut bank, a, b), Ok(()));
    assert_eq!(run_trade(&mut account, &mut bank, b, c), Ok(()));
    assert_eq!(account, Some(record(c, 500)));
    assert_eq!(bank.balance(a), 500);
    assert_eq!(bank.balance(b), 500);
    assert_eq!(bank.balance(c), 0);
}

#[test]
fn trade_keeps_the_creator() {
    let a = identity(1);
    let b = identity(2);
    let mut bank = Bank { balances: vec![(b, 500)] };
    let mut account = Some(record(a, 500));
    assert_eq!(run_trade(&mut account, &mut bank, a, b), Ok(()));
    assert_eq!(account.unwrap().creator, a);
}

#[test]
fn handler_orders_the_payment_on_the_working_copy() {
    let a = identity(1);
    let b = identity(2);
    let mut certificate = loaded(a, 500);
    let action = trade_certificate_handler(a, a, b, &mut certificate, TradeEvent::Requested);
    assert_eq!(action, TradeAction::Pay(Payment { from: b, to: a, amount: 500 }));
    assert_eq!(certificate, loaded(a, 500));
}

#[test]
fn handler_changes_the_owner_of_the_working_copy_once_paid() {
    let a = identity(1);
    let b = identity(2);
    let mut certificate = loaded(a, 500);
    let action = trade_certificate_handler(a, a, b, &mut certificate, TradeEvent::PaymentSettled);
    assert_eq!(action, TradeAction::Commit);
    assert_eq!(certificate, loaded(b, 500));
}

#[test]
fn handler_rejects_each_refused_trade() {
    let a = identity(1);
    let b = identity(2);
    let c = identity(3);
    let mut certificate = loaded(a, 500);
    assert_eq!(
        trade_certificate_handler(a, c, b, &mut certificate, TradeEvent::Requested),
        TradeAction::Reject(CertificateError::Authorization)
    );
    assert_eq!(
        trade_certificate_handler(a, a, a, &mut certificate, TradeEvent::Requested),
        TradeAction::Reject(CertificateError::InvalidArgument(InvalidArgument::SameOwner))
    );
    assert_eq!(
        trade_certificate_handler(a, a, b, &mut certificate, TradeEvent::PaymentFailed),
        TradeAction::Reject(CertificateError::Payment)
    );
    assert_eq!(certificate, loaded(a, 500));
}
