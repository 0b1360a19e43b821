//! The sizes of one remote tarball.
//!
//! The library sends nothing itself. A driver makes the first GET and hands
//! its outcome to `RemoteTarball::fetch`. The compressed size is then read
//! off the probe. The uncompressed size takes a `SizeQuery`, which says at
//! each step what the driver is to do:
//!
//! * `Request`: send a new GET for the probe's URL with the header `Range`
//!   set to the request's `header_value`, then hand `Event::Reply` to
//!   `advance`;
//! * `ReadTail`: read exactly four bytes from the body of that reply, then
//!   hand `Event::Tail` to `advance`;
//! * `Settled`: stop, the answer is there.
//!
//! Nothing is tried twice: a failure settles the query.

use crate::decimal::{append_decimal, decimal_digits, decimal_value, lemma_digits_stand_for_number};
use crate::error::{HeaderFault, ProbeError, TransportFailure, Violation};
use crate::field::{bytes_unit, is_text};
use crate::head::{Head, HeadView};
use crate::trailer::{isize_value, unpack_isize};
use vstd::prelude::*;

verus! {

/// The bytes of a resource that a ranged request asks for: those from
/// offset `first` to offset `last`, both counted from 0 and both included.
#[derive(Clone, Copy, Debug, PartialEq, Eq)]
pub struct RangeRequest {
    pub first: u64,
    pub last: u64,
}

/// The value of a `Range` header that asks for the bytes from `first` to
/// `last`: `bytes=`, the digits of `first`, a hyphen, the digits of `last`.
pub open spec fn range_value(first: u64, last: u64) -> Seq<u8> {
    bytes_unit().push(0x3d) + decimal_digits(first as nat).push(0x2d) + decimal_digits(
        last as nat,
    )
}

impl RangeRequest {
    /// The value to send in the `Range` header.
    pub fn header_value(&self) -> (value: Vec<u8>)
        ensures
            value@ == range_value(self.first, self.last),
    {
        let mut value: Vec<u8> = Vec::new();
        value.push(0x62);
        value.push(0x79);
        value.push(0x74);
        value.push(0x65);
        value.push(0x73);
        value.push(0x3d);
        append_decimal(&mut value, self.first);
        value.push(0x2d);
        append_decimal(&mut value, self.last);
        value
    }
}

/// What the driver reports once it has done what a query asked for.
pub enum Event {
    /// The outcome of the ranged request: the head of the reply, or the error
    /// of the transport.
    Reply(Result<Head, reqwest::Error>),
    /// The outcome of reading the reply's body: its four bytes, or the error
    /// that kept them from being read in full.
    Tail(Result<[u8; 4], std::io::Error>),
}

/// Where the search for the uncompressed size stands.
#[derive(Debug)]
pub enum SizeQuery {
    /// The ranged request is to be sent.
    Request(RangeRequest),
    /// The reply was accepted; the four bytes of its body are to be read.
    ReadTail,
    /// The search is over. `Ok(None)` says that the size cannot be known,
    /// as the server offers no byte ranges; `Ok(Some(..))` is the size,
    /// modulo 2^32.
    Settled(Result<Option<u64>, ProbeError>),
}

/// What becomes of a ranged request once the head of its reply is there:
/// a status other than success is the first fault looked for, a declared
/// length other than four bytes the second.
pub open spec fn reply_verdict(head: HeadView) -> SizeQuery {
    if !head.is_success() {
        SizeQuery::Settled(Err(ProbeError::ProtocolViolation(Violation::Status { code: head.status })))
    } else {
        match head.content_length() {
            Ok(length) => if length == 4 {
                SizeQuery::ReadTail
            } else {
                SizeQuery::Settled(
                    Err(ProbeError::ProtocolViolation(Violation::Length { declared: Some(length) })),
                )
            },
            Err(_) => SizeQuery::Settled(
                Err(ProbeError::ProtocolViolation(Violation::Length { declared: None })),
            ),
        }
    }
}

/// The query that follows `query` once `event` is reported. An event that
/// `query` does not wait for changes nothing.
pub open spec fn step(query: SizeQuery, event: Event) -> SizeQuery {
    match (query, event) {
        (SizeQuery::Request(_), Event::Reply(Ok(head))) => reply_verdict(head@),
        (SizeQuery::Request(_), Event::Reply(Err(cause))) => SizeQuery::Settled(
            Err(ProbeError::NetworkError(TransportFailure::Request(cause))),
        ),
        (SizeQuery::ReadTail, Event::Tail(Ok(packed))) => SizeQuery::Settled(
            Ok(Some(isize_value(packed@) as u64)),
        ),
        (SizeQuery::ReadTail, Event::Tail(Err(cause))) => SizeQuery::Settled(
            Err(ProbeError::NetworkError(TransportFailure::Body(cause))),
        ),
        (query, _) => query,
    }
}

impl SizeQuery {
    /// Takes the query one step on with what the driver reports.
    pub fn advance(self, event: Event) -> (next: SizeQuery)
        ensures
            next == step(self, event),
    {
        match (self, event) {
            (SizeQuery::Request(_), Event::Reply(Ok(head))) => {
                if !head.is_success() {
                    SizeQuery::Settled(
                        Err(ProbeError::ProtocolViolation(Violation::Status { code: head.status })),
                    )
                } else {
                    match head.content_length() {
                        Ok(length) => if length == 4 {
                            SizeQuery::ReadTail
                        } else {
                            SizeQuery::Settled(
                                Err(
                                    ProbeError::ProtocolViolation(
                                        Violation::Length { declared: Some(length) },
                                    ),
                                ),
                            )
                        },
                        Err(_) => SizeQuery::Settled(
                            Err(ProbeError::ProtocolViolation(Violation::Length { declared: None })),
                        ),
                    }
                }
            },
            (SizeQuery::Request(_), Event::Reply(Err(cause))) => SizeQuery::Settled(
                Err(ProbeError::NetworkError(TransportFailure::Request(cause))),
            ),
            (SizeQuery::ReadTail, Event::Tail(Ok(packed))) => SizeQuery::Settled(
                Ok(Some(unpack_isize(packed))),
            ),
            (SizeQuery::ReadTail, Event::Tail(Err(cause))) => SizeQuery::Settled(
                Err(ProbeError::NetworkError(TransportFailure::Body(cause))),
            ),
            (query, _) => query,
        }
    }
}

/// A connection to a tarball on a remote server, as far as its sizes go:
/// the URL that was asked for and the head of the reply to the first GET.
pub struct RemoteTarball {
    url: String,
    head: Head,
}

/// A `RemoteTarball` as contracts see it.
pub struct TarballView {
    pub url: Seq<char>,
    pub head: HeadView,
}

impl TarballView {
    /// The size of the full payload, as the head of the first reply declares
    /// it.
    pub open spec fn compressed_size(self) -> Result<u64, ProbeError> {
        match self.head.content_length() {
            Ok(size) => Ok(size),
            Err(fault) => Err(ProbeError::MissingHeader(fault)),
        }
    }

    /// Whether a ranged request may be sent.
    pub open spec fn supports_byte_ranges(self) -> bool {
        self.head.offers_byte_ranges()
    }

    /// Where the search for the uncompressed size starts.
    pub open spec fn size_query(self) -> SizeQuery {
        if !self.supports_byte_ranges() {
            SizeQuery::Settled(Ok(None))
        } else {
            match self.compressed_size() {
                Err(error) => SizeQuery::Settled(Err(error)),
                Ok(size) => if size < 4 {
                    SizeQuery::Settled(Err(ProbeError::ProtocolViolation(Violation::TooShort { size })))
                } else {
                    SizeQuery::Request(
                        RangeRequest { first: (size - 4) as u64, last: (size - 1) as u64 },
                    )
                },
            }
        }
    }
}

impl View for RemoteTarball {
    type V = TarballView;

    closed spec fn view(&self) -> TarballView {
        TarballView { url: self.url@, head: self.head@ }
    }
}

impl RemoteTarball {
    /// Makes the probe from the outcome of the first GET for `url`. The
    /// status of the reply is not looked at.
    pub fn fetch(url: &str, outcome: Result<Head, reqwest::Error>) -> (made: Result<
        RemoteTarball,
        ProbeError,
    >)
        ensures
            match outcome {
                Ok(head) => made matches Ok(tarball) && tarball@ == (TarballView {
                    url: url@,
                    head: head@,
                }),
                Err(cause) => made matches Err(error) && error == ProbeError::NetworkError(
                    TransportFailure::Request(cause),
                ),
            },
    {
        match outcome {
            Ok(head) => Ok(RemoteTarball { url: url.to_owned(), head }),
            Err(cause) => Err(ProbeError::NetworkError(TransportFailure::Request(cause))),
        }
    }

    /// The URL that the first GET went to, and that the ranged GET goes to.
    pub fn url(&self) -> (url: &str)
        ensures
            url@ == self@.url,
    {
        self.url.as_str()
    }

    /// Determines the size of the full payload from the headers.
    pub fn compressed_size(&self) -> (size: Result<u64, ProbeError>)
        ensures
            size == self@.compressed_size(),
    {
        match self.head.content_length() {
            Ok(size) => Ok(size),
            Err(fault) => Err(ProbeError::MissingHeader(fault)),
        }
    }

    /// Checks the headers to see whether a separate request can tell the
    /// uncompressed size as well.
    pub fn supports_byte_ranges(&self) -> (supported: bool)
        ensures
            supported == self@.supports_byte_ranges(),
    {
        self.head.offers_byte_ranges()
    }

    /// Opens the search for the uncompressed size. It is settled at once
    /// where the server offers no byte ranges, or declares no size or one of
    /// less than four bytes; else it asks for the last four bytes of the
    /// payload.
    pub fn uncompressed_size(&self) -> (query: SizeQuery)
        ensures
            query == self@.size_query(),
    {
        if !self.supports_byte_ranges() {
            return SizeQuery::Settled(Ok(None));
        }
        match self.compressed_size() {
            Err(error) => SizeQuery::Settled(Err(error)),
            Ok(size) => if size < 4 {
                SizeQuery::Settled(Err(ProbeError::ProtocolViolation(Violation::TooShort { size })))
            } else {
                SizeQuery::Request(RangeRequest { first: size - 4, last: size - 1 })
            },
        }
    }
}

/// The compressed size is the very number that the first reply declares:
/// a `Content-Length` that writes `size` in plain digits gives `size`.
pub proof fn lemma_compressed_size_is_declared(tarball: TarballView, size: u64)
    requires
        tarball.head.content_length_value == Some(decimal_digits(size as nat)),
    ensures
        tarball.compressed_size() == Ok::<u64, ProbeError>(size),
{
    lemma_digits_stand_for_number(size as nat);
}

/// There is no compressed size without a number to read: where
/// `Content-Length` is absent or stands for no number, the error is
/// `MissingHeader`, with the fault that tells the two apart. No size is made
/// up in their place.
pub proof fn lemma_compressed_size_needs_number(tarball: TarballView)
    ensures
        match tarball.head.content_length_value {
            None => tarball.compressed_size() == Err::<u64, ProbeError>(
                ProbeError::MissingHeader(HeaderFault::Absent),
            ),
            Some(value) => match decimal_value(value) {
                None => tarball.compressed_size() == Err::<u64, ProbeError>(
                    ProbeError::MissingHeader(HeaderFault::Unparsable),
                ),
                Some(size) => tarball.compressed_size() == Ok::<u64, ProbeError>(size),
            },
        },
{
}

/// Where the server does not offer byte ranges, the uncompressed size is
/// unknown and no request is asked for, whatever else the head holds. A
/// head without `Accept-Ranges` is such a case.
pub proof fn lemma_no_ranges_no_request(tarball: TarballView)
    ensures
        !tarball.supports_byte_ranges() ==> tarball.size_query() == SizeQuery::Settled(Ok(None)),
        tarball.head.accept_ranges_value is None ==> !tarball.supports_byte_ranges(),
{
}

/// The ranged request is for the last four bytes of the payload: for a
/// payload of `size` bytes, those from `size - 4` to `size - 1`.
pub proof fn lemma_request_is_for_last_four(tarball: TarballView, size: u64)
    requires
        tarball.supports_byte_ranges(),
        tarball.compressed_size() == Ok::<u64, ProbeError>(size),
        size >= 4,
    ensures
        tarball.size_query() == SizeQuery::Request(
            RangeRequest { first: (size - 4) as u64, last: (size - 1) as u64 },
        ),
{
}

/// A search asks for a request only where the server offers byte ranges and
/// declares a size of four bytes or more.
pub proof fn lemma_request_needs_ranges(tarball: TarballView)
    ensures
        tarball.size_query() is Request <==> tarball.supports_byte_ranges() && (
        tarball.compressed_size() matches Ok(size) && size >= 4),
{
}

/// The value sent in `Range` is text.
pub proof fn lemma_range_value_is_text(first: u64, last: u64)
    ensures
        is_text(range_value(first, last)),
{
    lemma_digits_stand_for_number(first as nat);
    lemma_digits_stand_for_number(last as nat);
}

/// A server that offers byte ranges and then answers the ranged request
/// with a body of any declared length but four bytes, or of none that can be
/// read, has the query settled with a `ProtocolViolation`: no byte of that
/// body is read. Where the status is a success, the violation holds the
/// length that was declared.
pub proof fn lemma_wrong_length_is_violation(tarball: TarballView, reply: Head)
    requires
        tarball.size_query() is Request,
        reply@.content_length() != Ok::<u64, HeaderFault>(4),
    ensures
        step(tarball.size_query(), Event::Reply(Ok(reply))) matches SizeQuery::Settled(
            Err(ProbeError::ProtocolViolation(_)),
        ),
        reply@.is_success() ==> step(tarball.size_query(), Event::Reply(Ok(reply)))
            == SizeQuery::Settled(
            Err(
                ProbeError::ProtocolViolation(
                    Violation::Length {
                        declared: match reply@.content_length() {
                            Ok(length) => Some(length),
                            Err(_) => None,
                        },
                    },
                ),
            ),
        ),
{
}

/// A reply to the ranged request that is no success settles the query with
/// a `ProtocolViolation` that holds the status, whatever length it declares.
pub proof fn lemma_failed_status_is_violation(request: RangeRequest, head: Head)
    requires
        !head@.is_success(),
    ensures
        step(SizeQuery::Request(request), Event::Reply(Ok(head))) == SizeQuery::Settled(
            Err(ProbeError::ProtocolViolation(Violation::Status { code: head.status })),
        ),
{
}

/// A search that goes well tells the size: the server offers byte ranges
/// and declares `size`, the ranged reply is a success of four bytes, and the
/// four bytes are read. The answer is what those bytes stand for.
pub proof fn lemma_search_tells_size(tarball: TarballView, reply: Head, packed: [u8; 4])
    requires
        tarball.supports_byte_ranges(),
        tarball.compressed_size() matches Ok(size) && size >= 4,
        reply@.is_success(),
        reply@.content_length() == Ok::<u64, HeaderFault>(4),
    ensures
        step(step(tarball.size_query(), Event::Reply(Ok(reply))), Event::Tail(Ok(packed)))
            == SizeQuery::Settled(Ok(Some(isize_value(packed@) as u64))),
        0 <= isize_value(packed@) < 0x1_0000_0000,
{
}

/// A settled query stays as it is, whatever is reported to it.
pub proof fn lemma_settled_stays(answer: Result<Option<u64>, ProbeError>, event: Event)
    ensures
        step(SizeQuery::Settled(answer), event) == SizeQuery::Settled(answer),
{
}

/// A search is over after one reply and one read at most: whatever the
/// outcome of the ranged request and of the read, the query is settled once
/// both are reported.
pub proof fn lemma_search_ends(
    tarball: TarballView,
    reply: Result<Head, reqwest::Error>,
    tail: Result<[u8; 4], std::io::Error>,
)
    ensures
        step(step(tarball.size_query(), Event::Reply(reply)), Event::Tail(tail)) is Settled,
{
}

} // verus!
