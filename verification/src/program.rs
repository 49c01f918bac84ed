//! The three operations on a loaded certificate: issue, trade and reprice.

use crate::certificate::{CertificateView, Empty, LoadedCertificate, MAX_NO_LEN, MAX_URL_LEN};
use crate::error::{CertificateError, InvalidArgument};
use crate::identity::Identity;
use crate::payment::{Payment, PaymentView, TradeAction, TradeActionView, TradeEvent};
use vstd::prelude::*;

verus! {

/// The certificate that an issue with these arguments creates, or the reason
/// why it creates none.
pub open spec fn issue(
    creator: Seq<u8>,
    no: Seq<u16>,
    url: Seq<u16>,
    weight_carbon: nat,
    price: nat,
) -> Result<CertificateView, CertificateError> {
    if no.len() > MAX_NO_LEN {
        Err(CertificateError::InvalidArgument(InvalidArgument::IdentifierTooLong))
    } else if url.len() > MAX_URL_LEN {
        Err(CertificateError::InvalidArgument(InvalidArgument::UrlTooLong))
    } else {
        Ok(CertificateView { creator, owner: creator, price, weight_carbon, no, url })
    }
}

/// Whether `claimant` may act as the owner of `record`.
pub open spec fn authorized(record: CertificateView, claimant: Seq<u8>) -> Result<
    (),
    CertificateError,
> {
    if claimant == record.owner {
        Ok(())
    } else {
        Err(CertificateError::Authorization)
    }
}

/// Why a trade of `record` from `old_owner` to `new_owner` cannot go ahead,
/// if it cannot.
pub open spec fn trade_refusal(
    record: CertificateView,
    old_owner: Seq<u8>,
    new_owner: Seq<u8>,
) -> Option<CertificateError> {
    if old_owner != record.owner {
        Some(CertificateError::Authorization)
    } else if new_owner == record.owner {
        Some(CertificateError::InvalidArgument(InvalidArgument::SameOwner))
    } else {
        None
    }
}

/// One step of a trade: the record and the answer that follow from `record`
/// and `event`.
pub open spec fn trade_step(
    record: CertificateView,
    old_owner: Seq<u8>,
    new_owner: Seq<u8>,
    event: TradeEvent,
) -> (CertificateView, TradeActionView) {
    match trade_refusal(record, old_owner, new_owner) {
        Some(error) => (record, TradeActionView::Reject(error)),
        None => match event {
            TradeEvent::Requested => (
                record,
                TradeActionView::Pay(
                    PaymentView { from: new_owner, to: old_owner, amount: record.price },
                ),
            ),
            TradeEvent::PaymentSettled => (
                CertificateView { owner: new_owner, ..record },
                TradeActionView::Commit,
            ),
            TradeEvent::PaymentFailed => (
                record,
                TradeActionView::Reject(CertificateError::Payment),
            ),
        },
    }
}

/// A whole trade as the host runs it: the request, then, where a payment was
/// ordered, the step that reports it, settled if `paid` and failed if not.
pub open spec fn trade(
    record: CertificateView,
    old_owner: Seq<u8>,
    new_owner: Seq<u8>,
    paid: bool,
) -> (CertificateView, TradeActionView) {
    let (asked, answer) = trade_step(record, old_owner, new_owner, TradeEvent::Requested);
    match answer {
        TradeActionView::Pay(_) => trade_step(
            asked,
            old_owner,
            new_owner,
            if paid {
                TradeEvent::PaymentSettled
            } else {
                TradeEvent::PaymentFailed
            },
        ),
        _ => (asked, answer),
    }
}

/// The record and the result of a price change to `price` that `owner` asks
/// for.
pub open spec fn reprice(record: CertificateView, owner: Seq<u8>, price: nat) -> (
    CertificateView,
    Result<(), CertificateError>,
) {
    match authorized(record, owner) {
        Ok(()) => (CertificateView { price, ..record }, Ok(())),
        Err(error) => (record, Err(error)),
    }
}

/// The capability check at the entry of an operation that only the owner may
/// ask for: passes exactly when `claimant` is the certificate's owner.
pub fn require_owner(claimant: Identity, certificate: &LoadedCertificate) -> (result: Result<
    (),
    CertificateError,
>)
    ensures
        result == authorized(certificate@, claimant@),
{
    if claimant == certificate.owner {
        Ok(())
    } else {
        Err(CertificateError::Authorization)
    }
}

/// Issues a certificate into an empty record: `creator` becomes creator and
/// owner, and price, quantity, identifier and pointer are the arguments as
/// given. An identifier or pointer over its limit is rejected and the record
/// stays as it was. `no_sha256` is the seed from which the host derives the
/// record's address; the certificate does not keep it.
pub fn init_certificate_handler(
    payer: Identity,
    creator: Identity,
    certificate: &mut Empty<LoadedCertificate>,
    no_sha256: u128,
    no: Vec<u16>,
    url: Vec<u16>,
    weight_carbon: u64,
    price: u64,
) -> (result: Result<(), CertificateError>)
    ensures
        match issue(creator@, no@, url@, weight_carbon as nat, price as nat) {
            Ok(record) => {
                &&& result is Ok
                &&& final(certificate).account@ == record
                &&& final(certificate).account@.wf()
                &&& final(certificate).bump == old(certificate).bump
            },
            Err(error) => {
                &&& result == Err::<(), CertificateError>(error)
                &&& *final(certificate) == *old(certificate)
            },
        },
{
    if no.len() > MAX_NO_LEN {
        return Err(CertificateError::InvalidArgument(InvalidArgument::IdentifierTooLong));
    }
    if url.len() > MAX_URL_LEN {
        return Err(CertificateError::InvalidArgument(InvalidArgument::UrlTooLong));
    }
    certificate.account.creator = creator;
    certificate.account.owner = creator;
    certificate.account.price = price;
    certificate.account.weight_carbon = weight_carbon;
    certificate.account.no = no;
    certificate.account.url = url;
    Ok(())
}

/// One step of a trade. Every step first checks that `old_owner` owns the
/// certificate and that `new_owner` does not. On `Requested` it orders the
/// payment of the price from the new owner to the old one and changes
/// nothing. Only on `PaymentSettled` does the owner change, and nothing
/// else does. On `PaymentFailed` the trade is rejected and nothing changes.
pub fn trade_certificate_handler(
    payer: Identity,
    old_owner: Identity,
    new_owner: Identity,
    certificate: &mut LoadedCertificate,
    event: TradeEvent,
) -> (action: TradeAction)
    ensures
        (final(certificate)@, action@) == trade_step(
            old(certificate)@,
            old_owner@,
            new_owner@,
            event,
        ),
        old(certificate)@.wf() ==> final(certificate)@.wf(),
{
    if let Err(error) = require_owner(old_owner, certificate) {
        return TradeAction::Reject(error);
    }
    if new_owner == certificate.owner {
        return TradeAction::Reject(
            CertificateError::InvalidArgument(InvalidArgument::SameOwner),
        );
    }
    match event {
        TradeEvent::Requested => TradeAction::Pay(
            Payment { from: new_owner, to: old_owner, amount: certificate.price },
        ),
        TradeEvent::PaymentSettled => {
            certificate.owner = new_owner;
            TradeAction::Commit
        },
        TradeEvent::PaymentFailed => TradeAction::Reject(CertificateError::Payment),
    }
}

/// Changes the price of a certificate on its owner's word. Any price is
/// taken, zero too. Where `owner` is not the owner, nothing changes.
pub fn update_price_certificate_handler(
    payer: Identity,
    owner: Identity,
    certificate: &mut LoadedCertificate,
    price: u64,
) -> (result: Result<(), CertificateError>)
    ensures
        (final(certificate)@, result) == reprice(old(certificate)@, owner@, price as nat),
        old(certificate)@.wf() ==> final(certificate)@.wf(),
{
    match require_owner(owner, certificate) {
        Ok(()) => {
            certificate.price = price;
            Ok(())
        },
        Err(error) => Err(error),
    }
}

} // verus!
