//! The certificate record, its working copy and its mathematical model.

use crate::error::CertificateError;
use crate::identity::Identity;
use vstd::prelude::*;

verus! {

/// Most code units an identifier may hold.
pub const MAX_NO_LEN: usize = 32;

/// Most code units a metadata pointer may hold.
pub const MAX_URL_LEN: usize = 128;

/// What a certificate is, apart from how it is stored: six attributes, each
/// with exactly one live value.
pub struct CertificateView {
    /// Key of the identity that issued the certificate.
    pub creator: Seq<u8>,
    /// Key of the identity that holds it now.
    pub owner: Seq<u8>,
    /// Asking price, in units of the payment primitive.
    pub price: nat,
    /// Quantity attached at issuance.
    pub weight_carbon: nat,
    /// Identifier, as code units.
    pub no: Seq<u16>,
    /// Pointer to the metadata kept outside the registry, as code units.
    pub url: Seq<u16>,
}

impl CertificateView {
    /// Identifier and pointer are within their limits and both identities
    /// are whole keys.
    pub open spec fn wf(self) -> bool {
        &&& self.creator.len() == 32
        &&& self.owner.len() == 32
        &&& self.no.len() <= MAX_NO_LEN
        &&& self.url.len() <= MAX_URL_LEN
    }

    /// A record as the store allocates it, before anything is issued into
    /// it.
    pub open spec fn empty() -> CertificateView {
        CertificateView {
            creator: Identity::nobody(),
            owner: Identity::nobody(),
            price: 0,
            weight_carbon: 0,
            no: Seq::empty(),
            url: Seq::empty(),
        }
    }
}

/// A certificate as the record store keeps it.
#[derive(Clone, Debug, PartialEq, Eq)]
pub struct Certificate {
    pub creator: Identity,
    pub owner: Identity,
    pub price: u64,
    pub weight_carbon: u64,
    pub no: Vec<u16>,
    pub url: Vec<u16>,
}

/// The working copy of a certificate: what an operation reads and changes
/// between `Certificate::load` and `Certificate::store`.
#[derive(Clone, Debug, PartialEq, Eq)]
pub struct LoadedCertificate {
    pub creator: Identity,
    pub owner: Identity,
    pub price: u64,
    pub weight_carbon: u64,
    pub no: Vec<u16>,
    pub url: Vec<u16>,
}

/// A record that was allocated and not yet issued.
#[derive(Clone, Debug)]
pub struct Empty<T: Clone> {
    pub account: T,
    /// The bump of the address that the record was allocated at, if any.
    pub bump: Option<u8>,
}

impl Default for Certificate {
    /// A record as the store allocates it.
    fn default() -> (record: Certificate)
        ensures
            record@ == CertificateView::empty(),
    {
        Certificate {
            creator: Identity::default(),
            owner: Identity::default(),
            price: 0,
            weight_carbon: 0,
            no: Vec::new(),
            url: Vec::new(),
        }
    }
}

impl View for Certificate {
    type V = CertificateView;

    open spec fn view(&self) -> CertificateView {
        CertificateView {
            creator: self.creator@,
            owner: self.owner@,
            price: self.price as nat,
            weight_carbon: self.weight_carbon as nat,
            no: self.no@,
            url: self.url@,
        }
    }
}

impl View for LoadedCertificate {
    type V = CertificateView;

    open spec fn view(&self) -> CertificateView {
        CertificateView {
            creator: self.creator@,
            owner: self.owner@,
            price: self.price as nat,
            weight_carbon: self.weight_carbon as nat,
            no: self.no@,
            url: self.url@,
        }
    }
}

/// A copy of `units` with the same code units in the same order.
fn copy_units(units: &Vec<u16>) -> (copy: Vec<u16>)
    ensures
        copy@ == units@,
{
    let mut copy: Vec<u16> = Vec::new();
    let mut i: usize = 0;
    while i < units.len()
        invariant
            i <= units.len(),
            copy@ == units@.take(i as int),
        decreases units.len() - i,
    {
        copy.push(units[i]);
        i += 1;
        assert(copy@ =~= units@.take(i as int));
    }
    assert(units@.take(units.len() as int) =~= units@);
    copy
}

impl Certificate {
    /// The working copy of what the record store returned for a lookup:
    /// every attribute of the record found, or `NotFound` where the store
    /// holds no record.
    pub fn load(account: Option<&Certificate>) -> (loaded: Result<
        LoadedCertificate,
        CertificateError,
    >)
        ensures
            match account {
                Some(record) => loaded is Ok && loaded->Ok_0@ == record@,
                None => loaded == Err::<LoadedCertificate, CertificateError>(
                    CertificateError::NotFound,
                ),
            },
    {
        match account {
            Some(record) => Ok(
                LoadedCertificate {
                    creator: record.creator,
                    owner: record.owner,
                    price: record.price,
                    weight_carbon: record.weight_carbon,
                    no: copy_units(&record.no),
                    url: copy_units(&record.url),
                },
            ),
            None => Err(CertificateError::NotFound),
        }
    }

    /// Commits a working copy: afterwards the record holds every attribute
    /// of `loaded`.
    pub fn store(loaded: &LoadedCertificate, account: &mut Certificate)
        ensures
            final(account)@ == loaded@,
    {
        account.creator = loaded.creator;
        account.owner = loaded.owner;
        account.price = loaded.price;
        account.weight_carbon = loaded.weight_carbon;
        account.no = copy_units(&loaded.no);
        account.url = copy_units(&loaded.url);
    }
}

} // verus!
