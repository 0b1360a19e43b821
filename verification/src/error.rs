//! What can go wrong while the sizes are asked for.

use vstd::prelude::*;

verus! {

/// `reqwest::Error`, the error of a request that could not be carried out.
/// The library hands such a value on and never looks inside.
#[verifier::external_type_specification]
#[verifier::external_body]
pub struct ExRequestError(reqwest::Error);

/// `std::io::Error`, the error of a read that failed. The library hands such
/// a value on and never looks inside.
#[verifier::external_type_specification]
#[verifier::external_body]
pub struct ExReadError(std::io::Error);

/// Where the transport gave way.
#[derive(Debug)]
pub enum TransportFailure {
    /// A request could not be sent, or no reply to it arrived.
    Request(reqwest::Error),
    /// The body of a reply failed or ended before the bytes asked of it were
    /// read.
    Body(std::io::Error),
}

/// What is wrong with the `Content-Length` of a reply.
#[derive(Clone, Copy, Debug, PartialEq, Eq)]
pub enum HeaderFault {
    /// The reply has no such field.
    Absent,
    /// The field's value is not a decimal number of at most 64 bits.
    Unparsable,
}

/// How a server failed the ranged request that it had invited.
#[derive(Clone, Copy, Debug, PartialEq, Eq)]
pub enum Violation {
    /// The resource is declared shorter than the four bytes to be asked for.
    TooShort { size: u64 },
    /// The status of the reply is not a success.
    Status { code: u16 },
    /// The reply declares a body of another length than four bytes; `None`
    /// where it declares no length that can be read.
    Length { declared: Option<u64> },
}

/// Why a size could not be told.
#[derive(Debug)]
pub enum ProbeError {
    /// The transport failed, on the first request or on the ranged one.
    NetworkError(TransportFailure),
    /// The first reply does not declare how long the resource is.
    MissingHeader(HeaderFault),
    /// The connection held, and the server did not answer the ranged request
    /// as a server that offers byte ranges has to.
    ProtocolViolation(Violation),
}

} // verus!
