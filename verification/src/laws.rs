//! What holds of the operations whatever they are called with.

use crate::certificate::{CertificateView, MAX_NO_LEN, MAX_URL_LEN};
use crate::error::{CertificateError, InvalidArgument};
use crate::payment::{PaymentView, TradeActionView, TradeEvent};
use crate::program::{issue, reprice, trade, trade_step};
use vstd::prelude::*;

verus! {

/// An issue succeeds exactly when identifier and pointer are within their
/// limits. The certificate it creates has the caller as creator and as
/// owner, and holds price, quantity, identifier and pointer as they were
/// given.
pub proof fn lemma_issue_keeps_arguments(
    creator: Seq<u8>,
    no: Seq<u16>,
    url: Seq<u16>,
    weight_carbon: nat,
    price: nat,
)
    ensures
        issue(creator, no, url, weight_carbon, price) is Ok <==> no.len() <= MAX_NO_LEN
            && url.len() <= MAX_URL_LEN,
        issue(creator, no, url, weight_carbon, price) matches Ok(record) ==> {
            &&& record.creator == creator
            &&& record.owner == creator
            &&& record.price == price
            &&& record.weight_carbon == weight_carbon
            &&& record.no == no
            &&& record.url == url
        },
        issue(creator, no, url, weight_carbon, price) matches Err(error) ==> error
            == CertificateError::InvalidArgument(InvalidArgument::IdentifierTooLong) || error
            == CertificateError::InvalidArgument(InvalidArgument::UrlTooLong),
{
}

/// A certificate issued by a whole key is well formed.
pub proof fn lemma_issue_is_well_formed(
    creator: Seq<u8>,
    no: Seq<u16>,
    url: Seq<u16>,
    weight_carbon: nat,
    price: nat,
)
    requires
        creator.len() == 32,
    ensures
        issue(creator, no, url, weight_carbon, price) matches Ok(record) ==> record.wf(),
{
}

/// A trade succeeds exactly when the current owner is the record's owner,
/// the new owner is not, and the payment is settled. A trade that succeeds
/// makes the new owner the owner and changes nothing else. A trade always
/// ends: in success or in a rejection, never in another payment.
pub proof fn lemma_trade_succeeds_iff(
    record: CertificateView,
    current_owner: Seq<u8>,
    new_owner: Seq<u8>,
    paid: bool,
)
    ensures
        trade(record, current_owner, new_owner, paid).1 is Commit <==> current_owner
            == record.owner && new_owner != record.owner && paid,
        trade(record, current_owner, new_owner, paid).1 is Commit ==> trade(
            record,
            current_owner,
            new_owner,
            paid,
        ).0 == (CertificateView { owner: new_owner, ..record }),
        !(trade(record, current_owner, new_owner, paid).1 is Pay),
{
}

/// A step of a trade changes the owner exactly when the current owner is
/// the record's owner, the new owner is not, and the step reports a settled
/// payment. Such a step makes the new owner the owner and changes nothing
/// else.
pub proof fn lemma_trade_step_commits_iff(
    record: CertificateView,
    current_owner: Seq<u8>,
    new_owner: Seq<u8>,
    event: TradeEvent,
)
    ensures
        trade_step(record, current_owner, new_owner, event).1 is Commit <==> current_owner
            == record.owner && new_owner != record.owner && event == TradeEvent::PaymentSettled,
        trade_step(record, current_owner, new_owner, event).1 is Commit ==> trade_step(
            record,
            current_owner,
            new_owner,
            event,
        ).0 == (CertificateView { owner: new_owner, ..record }),
        !(trade_step(record, current_owner, new_owner, event).1 is Commit) ==> trade_step(
            record,
            current_owner,
            new_owner,
            event,
        ).0 == record,
{
}

/// A trade orders a payment exactly when the current owner is the record's
/// owner and the new owner is not. The payment is of the record's price,
/// from the new owner to the current one, and it is ordered before anything
/// changes.
pub proof fn lemma_trade_orders_price(
    record: CertificateView,
    current_owner: Seq<u8>,
    new_owner: Seq<u8>,
)
    ensures
        trade_step(record, current_owner, new_owner, TradeEvent::Requested).1 is Pay
            <==> current_owner == record.owner && new_owner != record.owner,
        trade_step(record, current_owner, new_owner, TradeEvent::Requested).1 is Pay ==> trade_step(
            record,
            current_owner,
            new_owner,
            TradeEvent::Requested,
        ).1 == TradeActionView::Pay(
            PaymentView { from: new_owner, to: current_owner, amount: record.price },
        ),
        trade_step(record, current_owner, new_owner, TradeEvent::Requested).0 == record,
{
}

/// A trade whose payment fails leaves the record as it was, owner included,
/// however far the checks went; and so does every step that does not report
/// a settled payment.
pub proof fn lemma_unpaid_trade_changes_nothing(
    record: CertificateView,
    current_owner: Seq<u8>,
    new_owner: Seq<u8>,
    event: TradeEvent,
)
    ensures
        trade(record, current_owner, new_owner, false).0 == record,
        trade(record, current_owner, new_owner, false).0.owner == record.owner,
        trade(record, current_owner, new_owner, false).1 is Reject,
        event != TradeEvent::PaymentSettled ==> trade_step(
            record,
            current_owner,
            new_owner,
            event,
        ).0 == record,
{
}

/// A trade that is rejected, at any step and for any reason, changes
/// nothing.
pub proof fn lemma_rejected_trade_changes_nothing(
    record: CertificateView,
    current_owner: Seq<u8>,
    new_owner: Seq<u8>,
    event: TradeEvent,
    paid: bool,
)
    ensures
        trade_step(record, current_owner, new_owner, event).1 is Reject ==> trade_step(
            record,
            current_owner,
            new_owner,
            event,
        ).0 == record,
        trade(record, current_owner, new_owner, paid).1 is Reject ==> trade(
            record,
            current_owner,
            new_owner,
            paid,
        ).0 == record,
{
}

/// Once a trade has succeeded, a second trade by the same current owner is
/// rejected at the first check, whoever is to receive the certificate and
/// whatever becomes of the payment.
pub proof fn lemma_second_trade_is_unauthorized(
    record: CertificateView,
    current_owner: Seq<u8>,
    new_owner: Seq<u8>,
    next_owner: Seq<u8>,
    paid: bool,
)
    requires
        trade(record, current_owner, new_owner, true).1 is Commit,
    ensures
        trade(trade(record, current_owner, new_owner, true).0, current_owner, next_owner, paid)
            == (
            trade(record, current_owner, new_owner, true).0,
            TradeActionView::Reject(CertificateError::Authorization),
        ),
{
}

/// A price change succeeds exactly when the identity that asks is the
/// record's owner. One that succeeds changes the price and nothing else;
/// one that fails changes nothing.
pub proof fn lemma_reprice_succeeds_iff(record: CertificateView, owner: Seq<u8>, price: nat)
    ensures
        reprice(record, owner, price).1 is Ok <==> owner == record.owner,
        reprice(record, owner, price).1 is Ok ==> reprice(record, owner, price).0 == (
            CertificateView { price, ..record }
        ),
        reprice(record, owner, price).1 is Err ==> reprice(record, owner, price) == (
            record,
            Err::<(), CertificateError>(CertificateError::Authorization),
        ),
        reprice(record, owner, price).0.owner == record.owner,
        reprice(record, owner, price).0.creator == record.creator,
        reprice(record, owner, price).0.weight_carbon == record.weight_carbon,
        reprice(record, owner, price).0.url == record.url,
        reprice(record, owner, price).0.no == record.no,
{
}

/// Asking for the same price twice ends in the same record and the same
/// result as asking once.
pub proof fn lemma_reprice_idempotent(record: CertificateView, owner: Seq<u8>, price: nat)
    ensures
        reprice(reprice(record, owner, price).0, owner, price) == reprice(record, owner, price),
{
}

/// After a price change, a trade orders the payment of the new price.
pub proof fn lemma_trade_orders_new_price(
    record: CertificateView,
    owner: Seq<u8>,
    new_owner: Seq<u8>,
    price: nat,
)
    requires
        owner == record.owner,
        new_owner != record.owner,
    ensures
        trade_step(reprice(record, owner, price).0, owner, new_owner, TradeEvent::Requested).1
            == TradeActionView::Pay(PaymentView { from: new_owner, to: owner, amount: price }),
{
}

/// No trade and no price change touches what was fixed at issuance:
/// creator, quantity, identifier and pointer.
pub proof fn lemma_issued_attributes_are_kept(
    record: CertificateView,
    claimant: Seq<u8>,
    new_owner: Seq<u8>,
    event: TradeEvent,
    price: nat,
)
    ensures
        ({
            let traded = trade_step(record, claimant, new_owner, event).0;
            &&& traded.creator == record.creator
            &&& traded.weight_carbon == record.weight_carbon
            &&& traded.no == record.no
            &&& traded.url == record.url
            &&& traded.price == record.price
        }),
        ({
            let repriced = reprice(record, claimant, price).0;
            &&& repriced.creator == record.creator
            &&& repriced.weight_carbon == record.weight_carbon
            &&& repriced.no == record.no
            &&& repriced.url == record.url
            &&& repriced.owner == record.owner
        }),
{
}

/// A well-formed record stays well formed: its owner is a whole key after
/// every step of a trade to a whole key, and after every price change.
pub proof fn lemma_operations_keep_well_formed(
    record: CertificateView,
    claimant: Seq<u8>,
    new_owner: Seq<u8>,
    event: TradeEvent,
    price: nat,
)
    requires
        record.wf(),
        new_owner.len() == 32,
    ensures
        trade_step(record, claimant, new_owner, event).0.wf(),
        reprice(record, claimant, price).0.wf(),
{
}

} // verus!
