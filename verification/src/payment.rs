//! What passes between a trade and the host's payment primitive.

use crate::error::CertificateError;
use crate::identity::Identity;
use vstd::prelude::*;

verus! {

/// An order to the payment primitive: move `amount` units from `from` to
/// `to`, all of it or nothing.
#[derive(Clone, Copy, Debug, PartialEq, Eq)]
pub struct Payment {
    pub from: Identity,
    pub to: Identity,
    pub amount: u64,
}

/// A payment order over keys and a natural amount.
pub struct PaymentView {
    pub from: Seq<u8>,
    pub to: Seq<u8>,
    pub amount: nat,
}

impl View for Payment {
    type V = PaymentView;

    open spec fn view(&self) -> PaymentView {
        PaymentView { from: self.from@, to: self.to@, amount: self.amount as nat }
    }
}

/// What the host tells a trade.
#[derive(Clone, Copy, Debug, PartialEq, Eq, Structural)]
pub enum TradeEvent {
    /// The two parties ask for the trade.
    Requested,
    /// The payment primitive moved the whole amount that was ordered.
    PaymentSettled,
    /// The payment primitive moved nothing.
    PaymentFailed,
}

/// What a trade tells the host to do next.
#[derive(Clone, Copy, Debug, PartialEq, Eq)]
pub enum TradeAction {
    /// Carry out the payment, then report how it ended.
    Pay(Payment),
    /// The working copy holds the new owner: store it.
    Commit,
    /// Abort the operation and store nothing.
    Reject(CertificateError),
}

/// A trade's answer over keys and a natural amount.
pub enum TradeActionView {
    Pay(PaymentView),
    Commit,
    Reject(CertificateError),
}

impl View for TradeAction {
    type V = TradeActionView;

    open spec fn view(&self) -> TradeActionView {
        match *self {
            TradeAction::Pay(payment) => TradeActionView::Pay(payment@),
            TradeAction::Commit => TradeActionView::Commit,
            TradeAction::Reject(error) => TradeActionView::Reject(error),
        }
    }
}

} // verus!
