//! The operations as the host asks for them: on what its record store holds
//! under the identifier that the caller named.

use crate::certificate::{Certificate, CertificateView, Empty};
use crate::error::CertificateError;
use crate::identity::Identity;
use crate::payment::{TradeAction, TradeActionView, TradeEvent};
use crate::program::{
    init_certificate_handler, issue, reprice, trade_certificate_handler, trade_step,
    update_price_certificate_handler,
};
use vstd::prelude::*;

verus! {

/// What a place of the record store holds: the certificate found there, or
/// nothing.
pub open spec fn held(account: Option<Certificate>) -> Option<CertificateView> {
    match account {
        Some(record) => Some(record@),
        None => None,
    }
}

/// One step of a trade on a place of the record store.
pub open spec fn trade_held(
    account: Option<CertificateView>,
    old_owner: Seq<u8>,
    new_owner: Seq<u8>,
    event: TradeEvent,
) -> (Option<CertificateView>, TradeActionView) {
    match account {
        Some(record) => {
            let (next, action) = trade_step(record, old_owner, new_owner, event);
            (Some(next), action)
        },
        None => (None, TradeActionView::Reject(CertificateError::NotFound)),
    }
}

/// A price change on a place of the record store.
pub open spec fn reprice_held(account: Option<CertificateView>, owner: Seq<u8>, price: nat) -> (
    Option<CertificateView>,
    Result<(), CertificateError>,
) {
    match account {
        Some(record) => {
            let (next, result) = reprice(record, owner, price);
            (Some(next), result)
        },
        None => (None, Err(CertificateError::NotFound)),
    }
}

/// Issues a certificate and returns the record for the store to create. The
/// store, not this function, refuses an identifier that is taken. `bump`
/// belongs to the address that the host allocates the record at.
pub fn init_certificate(
    bump: u8,
    payer: Identity,
    creator: Identity,
    no_sha256: u128,
    no: Vec<u16>,
    url: Vec<u16>,
    weight_carbon: u64,
    price: u64,
) -> (result: Result<Certificate, CertificateError>)
    ensures
        match issue(creator@, no@, url@, weight_carbon as nat, price as nat) {
            Ok(record) => result is Ok && result->Ok_0@ == record && record.wf(),
            Err(error) => result == Err::<Certificate, CertificateError>(error),
        },
{
    let mut account = Certificate::default();
    let loaded = match Certificate::load(Some(&account)) {
        Ok(loaded) => loaded,
        Err(error) => {
            return Err(error);
        },
    };
    let mut certificate = Empty { account: loaded, bump: Some(bump) };
    match init_certificate_handler(
        payer,
        creator,
        &mut certificate,
        no_sha256,
        no,
        url,
        weight_carbon,
        price,
    ) {
        Ok(()) => {
            Certificate::store(&certificate.account, &mut account);
            Ok(account)
        },
        Err(error) => Err(error),
    }
}

/// One step of a trade on the record that the store holds at `account`. The
/// record is loaded, the step is taken on the working copy, and the copy is
/// stored only where the step ends in `Commit`: on any other answer the
/// store keeps what it held. Where the store holds nothing, the trade is
/// rejected with `NotFound`.
pub fn trade_certificate(
    account: &mut Option<Certificate>,
    payer: Identity,
    old_owner: Identity,
    new_owner: Identity,
    event: TradeEvent,
) -> (action: TradeAction)
    ensures
        (held(*final(account)), action@) == trade_held(
            held(*old(account)),
            old_owner@,
            new_owner@,
            event,
        ),
        !(action is Commit) ==> *final(account) == *old(account),
{
    let mut certificate = match Certificate::load(account.as_ref()) {
        Ok(loaded) => loaded,
        Err(error) => {
            return TradeAction::Reject(error);
        },
    };
    let action = trade_certificate_handler(payer, old_owner, new_owner, &mut certificate, event);
    if let TradeAction::Commit = action {
        if let Some(record) = account {
            Certificate::store(&certificate, record);
        }
    }
    action
}

/// Changes the price of the record that the store holds at `account`. The
/// record is loaded, repriced on the working copy and stored once, and only
/// where the owner asked: on an error the store keeps what it held. Where
/// the store holds nothing, the result is `NotFound`.
pub fn update_price_certificate(
    account: &mut Option<Certificate>,
    payer: Identity,
    owner: Identity,
    price: u64,
) -> (result: Result<(), CertificateError>)
    ensures
        (held(*final(account)), result) == reprice_held(
            held(*old(account)),
            owner@,
            price as nat,
        ),
        result is Err ==> *final(account) == *old(account),
{
    let mut certificate = match Certificate::load(account.as_ref()) {
        Ok(loaded) => loaded,
        Err(error) => {
            return Err(error);
        },
    };
    match update_price_certificate_handler(payer, owner, &mut certificate, price) {
        Ok(()) => {
            if let Some(record) = account {
                Certificate::store(&certificate, record);
            }
            Ok(())
        },
        Err(error) => Err(error),
    }
}

} // verus!
