//! The ways an operation on a certificate is rejected.

use vstd::prelude::*;

verus! {

/// What is wrong with an argument that no record could make acceptable.
#[derive(Clone, Copy, Debug, PartialEq, Eq, Structural)]
pub enum InvalidArgument {
    /// The new owner of a trade is the certificate's owner already.
    SameOwner,
    /// The identifier holds more code units than a certificate can keep.
    IdentifierTooLong,
    /// The metadata pointer holds more code units than a certificate can keep.
    UrlTooLong,
}

/// Why an operation was rejected. Every rejection is final: the operation
/// changes nothing and is not retried.
#[derive(Clone, Copy, Debug, PartialEq, Eq, Structural)]
pub enum CertificateError {
    /// The identity that claims to own the certificate is not its owner.
    Authorization,
    /// An argument cannot be accepted whatever the record holds.
    InvalidArgument(InvalidArgument),
    /// The payment primitive did not move the price.
    Payment,
    /// The record store holds no certificate under the identifier.
    NotFound,
}

impl CertificateError {
    /// The text that `message` returns for each rejection.
    pub open spec fn message_text(self) -> Seq<char> {
        match self {
            CertificateError::Authorization => "owner must be the signer"@,
            CertificateError::InvalidArgument(InvalidArgument::SameOwner) =>
                "new owner must differ from current owner"@,
            CertificateError::InvalidArgument(InvalidArgument::IdentifierTooLong) =>
                "identifier is longer than 32 code units"@,
            CertificateError::InvalidArgument(InvalidArgument::UrlTooLong) =>
                "url is longer than 128 code units"@,
            CertificateError::Payment => "payment failed"@,
            CertificateError::NotFound => "certificate not found"@,
        }
    }

    /// A short description for the caller.
    pub fn message(&self) -> (text: &'static str)
        ensures
            text@ == self.message_text(),
    {
        match self {
            CertificateError::Authorization => "owner must be the signer",
            CertificateError::InvalidArgument(InvalidArgument::SameOwner) =>
                "new owner must differ from current owner",
            CertificateError::InvalidArgument(InvalidArgument::IdentifierTooLong) =>
                "identifier is longer than 32 code units",
            CertificateError::InvalidArgument(InvalidArgument::UrlTooLong) =>
                "url is longer than 128 code units",
            CertificateError::Payment => "payment failed",
            CertificateError::NotFound => "certificate not found",
        }
    }
}

} // verus!
