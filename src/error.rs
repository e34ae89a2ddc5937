//! Error objects handed to the host: a kind from a closed set and a
//! description; for a failed connect, also the IO failure beneath it, whose
//! kind has a stable code.

use vstd::prelude::*;

use std::fmt::{Debug, Display};

verus! {

/// async_nats::ConnectErrorKind, a plain enum whose variants Verus reads.
#[verifier::external_type_specification]
pub struct ExConnectErrorKind(async_nats::ConnectErrorKind);

/// async_nats::RequestErrorKind, a plain enum whose variants Verus reads.
#[verifier::external_type_specification]
pub struct ExRequestErrorKind(async_nats::RequestErrorKind);

/// async_nats::error::Error, the client's error type, carried as an opaque value.
#[verifier::external_type_specification]
#[verifier::external_body]
#[verifier::reject_recursive_types(Kind)]
pub struct ExNatsError<Kind: Clone + Debug + Display + PartialEq>(async_nats::error::Error<Kind>);

/// The kind that async_nats records in a failed connect's error.
pub uninterp spec fn connect_kind_of(e: async_nats::ConnectError) -> async_nats::ConnectErrorKind;

/// The kind that async_nats records in a failed request's error.
pub uninterp spec fn request_kind_of(e: async_nats::RequestError) -> async_nats::RequestErrorKind;

/// Relies on async_nats::error::Error::kind, which returns a copy of the
/// kind stored in the error.
#[verifier::external_body]
fn connect_error_kind(e: &async_nats::ConnectError) -> (r: async_nats::ConnectErrorKind)
    ensures
        r == connect_kind_of(*e),
{
    e.kind()
}

/// Relies on async_nats::error::Error::kind, which returns a copy of the
/// kind stored in the error.
#[verifier::external_body]
fn request_error_kind(e: &async_nats::RequestError) -> (r: async_nats::RequestErrorKind)
    ensures
        r == request_kind_of(*e),
{
    e.kind()
}

/// Relies on the `Display` impl of async_nats's error type for the text of
/// a failed connect.
#[verifier::external_body]
fn connect_error_text(e: &async_nats::ConnectError) -> String {
    e.to_string()
}

/// Relies on the `Display` impl of async_nats's error type for the text of
/// a failed request.
#[verifier::external_body]
fn request_error_text(e: &async_nats::RequestError) -> String {
    e.to_string()
}

/// std::io::ErrorKind, an enum whose variants Verus reads.
#[verifier::external_type_specification]
pub struct ExIoErrorKind(std::io::ErrorKind);

/// The kind and OS code of the IO failure stored beneath a failed
/// connect's error, if one is.
pub uninterp spec fn connect_io_of(e: async_nats::ConnectError) -> Option<(std::io::ErrorKind, Option<i32>)>;

/// Relies on `std::error::Error::source` of async_nats's error and on
/// `std::io::Error::kind` and `raw_os_error`: the kind and the OS code of the
/// IO failure beneath a failed connect, when there is one.
#[verifier::external_body]
fn connect_error_io(e: &async_nats::ConnectError) -> (r: Option<(std::io::ErrorKind, Option<i32>)>)
    ensures
        r == connect_io_of(*e),
{
    std::error::Error::source(e)
        .and_then(|s| s.downcast_ref::<std::io::Error>())
        .map(|io| (io.kind(), io.raw_os_error()))
}

/// Kinds of the IO failures beneath an error, each with a stable code.
#[allow(non_camel_case_types)]
#[derive(Clone, Copy, Debug, PartialEq, Eq, Structural)]
pub enum AsyncNatsIoErrorKind {
    AsyncNats_Io_NotFound,
    AsyncNats_Io_PermissionDenied,
    AsyncNats_Io_ConnectionRefused,
    AsyncNats_Io_ConnectionReset,
    AsyncNats_Io_ConnectionAborted,
    AsyncNats_Io_NotConnected,
    AsyncNats_Io_AddrInUse,
    AsyncNats_Io_AddrNotAvailable,
    AsyncNats_Io_BrokenPipe,
    AsyncNats_Io_AlreadyExists,
    AsyncNats_Io_WouldBlock,
    AsyncNats_Io_InvalidInput,
    AsyncNats_Io_InvalidData,
    AsyncNats_Io_TimedOut,
    AsyncNats_Io_WriteZero,
    AsyncNats_Io_Other,
}

/// The stable code of each IO kind.
pub open spec fn io_code_spec(k: AsyncNatsIoErrorKind) -> u8 {
    match k {
        AsyncNatsIoErrorKind::AsyncNats_Io_NotFound => 1,
        AsyncNatsIoErrorKind::AsyncNats_Io_PermissionDenied => 2,
        AsyncNatsIoErrorKind::AsyncNats_Io_ConnectionRefused => 3,
        AsyncNatsIoErrorKind::AsyncNats_Io_ConnectionReset => 4,
        AsyncNatsIoErrorKind::AsyncNats_Io_ConnectionAborted => 5,
        AsyncNatsIoErrorKind::AsyncNats_Io_NotConnected => 6,
        AsyncNatsIoErrorKind::AsyncNats_Io_AddrInUse => 7,
        AsyncNatsIoErrorKind::AsyncNats_Io_AddrNotAvailable => 8,
        AsyncNatsIoErrorKind::AsyncNats_Io_BrokenPipe => 9,
        AsyncNatsIoErrorKind::AsyncNats_Io_AlreadyExists => 10,
        AsyncNatsIoErrorKind::AsyncNats_Io_WouldBlock => 11,
        AsyncNatsIoErrorKind::AsyncNats_Io_InvalidInput => 12,
        AsyncNatsIoErrorKind::AsyncNats_Io_InvalidData => 13,
        AsyncNatsIoErrorKind::AsyncNats_Io_TimedOut => 14,
        AsyncNatsIoErrorKind::AsyncNats_Io_WriteZero => 15,
        AsyncNatsIoErrorKind::AsyncNats_Io_Other => 16,
    }
}

/// The IO kind the host sees for each kind std reports; kinds outside the
/// stable set are `Other`.
pub open spec fn io_kind_spec(k: std::io::ErrorKind) -> AsyncNatsIoErrorKind {
    match k {
        std::io::ErrorKind::NotFound => AsyncNatsIoErrorKind::AsyncNats_Io_NotFound,
        std::io::ErrorKind::PermissionDenied => AsyncNatsIoErrorKind::AsyncNats_Io_PermissionDenied,
        std::io::ErrorKind::ConnectionRefused => AsyncNatsIoErrorKind::AsyncNats_Io_ConnectionRefused,
        std::io::ErrorKind::ConnectionReset => AsyncNatsIoErrorKind::AsyncNats_Io_ConnectionReset,
        std::io::ErrorKind::ConnectionAborted => AsyncNatsIoErrorKind::AsyncNats_Io_ConnectionAborted,
        std::io::ErrorKind::NotConnected => AsyncNatsIoErrorKind::AsyncNats_Io_NotConnected,
        std::io::ErrorKind::AddrInUse => AsyncNatsIoErrorKind::AsyncNats_Io_AddrInUse,
        std::io::ErrorKind::AddrNotAvailable => AsyncNatsIoErrorKind::AsyncNats_Io_AddrNotAvailable,
        std::io::ErrorKind::BrokenPipe => AsyncNatsIoErrorKind::AsyncNats_Io_BrokenPipe,
        std::io::ErrorKind::AlreadyExists => AsyncNatsIoErrorKind::AsyncNats_Io_AlreadyExists,
        std::io::ErrorKind::WouldBlock => AsyncNatsIoErrorKind::AsyncNats_Io_WouldBlock,
        std::io::ErrorKind::InvalidInput => AsyncNatsIoErrorKind::AsyncNats_Io_InvalidInput,
        std::io::ErrorKind::InvalidData => AsyncNatsIoErrorKind::AsyncNats_Io_InvalidData,
        std::io::ErrorKind::TimedOut => AsyncNatsIoErrorKind::AsyncNats_Io_TimedOut,
        std::io::ErrorKind::WriteZero => AsyncNatsIoErrorKind::AsyncNats_Io_WriteZero,
        _ => AsyncNatsIoErrorKind::AsyncNats_Io_Other,
    }
}

impl AsyncNatsIoErrorKind {
    pub fn code(&self) -> (r: u8)
        ensures
            r == io_code_spec(*self),
    {
        match self {
            AsyncNatsIoErrorKind::AsyncNats_Io_NotFound => 1,
            AsyncNatsIoErrorKind::AsyncNats_Io_PermissionDenied => 2,
            AsyncNatsIoErrorKind::AsyncNats_Io_ConnectionRefused => 3,
            AsyncNatsIoErrorKind::AsyncNats_Io_ConnectionReset => 4,
            AsyncNatsIoErrorKind::AsyncNats_Io_ConnectionAborted => 5,
            AsyncNatsIoErrorKind::AsyncNats_Io_NotConnected => 6,
            AsyncNatsIoErrorKind::AsyncNats_Io_AddrInUse => 7,
            AsyncNatsIoErrorKind::AsyncNats_Io_AddrNotAvailable => 8,
            AsyncNatsIoErrorKind::AsyncNats_Io_BrokenPipe => 9,
            AsyncNatsIoErrorKind::AsyncNats_Io_AlreadyExists => 10,
            AsyncNatsIoErrorKind::AsyncNats_Io_WouldBlock => 11,
            AsyncNatsIoErrorKind::AsyncNats_Io_InvalidInput => 12,
            AsyncNatsIoErrorKind::AsyncNats_Io_InvalidData => 13,
            AsyncNatsIoErrorKind::AsyncNats_Io_TimedOut => 14,
            AsyncNatsIoErrorKind::AsyncNats_Io_WriteZero => 15,
            AsyncNatsIoErrorKind::AsyncNats_Io_Other => 16,
        }
    }

    /// The kind with the given code, if the code is one.
    pub fn from_code(code: u8) -> (r: Option<AsyncNatsIoErrorKind>)
        ensures
            r matches Some(k) ==> io_code_spec(k) == code,
            r is None <==> !(1 <= code <= 16),
    {
        match code {
            1 => Some(AsyncNatsIoErrorKind::AsyncNats_Io_NotFound),
            2 => Some(AsyncNatsIoErrorKind::AsyncNats_Io_PermissionDenied),
            3 => Some(AsyncNatsIoErrorKind::AsyncNats_Io_ConnectionRefused),
            4 => Some(AsyncNatsIoErrorKind::AsyncNats_Io_ConnectionReset),
            5 => Some(AsyncNatsIoErrorKind::AsyncNats_Io_ConnectionAborted),
            6 => Some(AsyncNatsIoErrorKind::AsyncNats_Io_NotConnected),
            7 => Some(AsyncNatsIoErrorKind::AsyncNats_Io_AddrInUse),
            8 => Some(AsyncNatsIoErrorKind::AsyncNats_Io_AddrNotAvailable),
            9 => Some(AsyncNatsIoErrorKind::AsyncNats_Io_BrokenPipe),
            10 => Some(AsyncNatsIoErrorKind::AsyncNats_Io_AlreadyExists),
            11 => Some(AsyncNatsIoErrorKind::AsyncNats_Io_WouldBlock),
            12 => Some(AsyncNatsIoErrorKind::AsyncNats_Io_InvalidInput),
            13 => Some(AsyncNatsIoErrorKind::AsyncNats_Io_InvalidData),
            14 => Some(AsyncNatsIoErrorKind::AsyncNats_Io_TimedOut),
            15 => Some(AsyncNatsIoErrorKind::AsyncNats_Io_WriteZero),
            16 => Some(AsyncNatsIoErrorKind::AsyncNats_Io_Other),
            _ => None,
        }
    }
}

pub fn io_kind(k: std::io::ErrorKind) -> (r: AsyncNatsIoErrorKind)
    ensures
        r == io_kind_spec(k),
{
    match k {
        std::io::ErrorKind::NotFound => AsyncNatsIoErrorKind::AsyncNats_Io_NotFound,
        std::io::ErrorKind::PermissionDenied => AsyncNatsIoErrorKind::AsyncNats_Io_PermissionDenied,
        std::io::ErrorKind::ConnectionRefused => AsyncNatsIoErrorKind::AsyncNats_Io_ConnectionRefused,
        std::io::ErrorKind::ConnectionReset => AsyncNatsIoErrorKind::AsyncNats_Io_ConnectionReset,
        std::io::ErrorKind::ConnectionAborted => AsyncNatsIoErrorKind::AsyncNats_Io_ConnectionAborted,
        std::io::ErrorKind::NotConnected => AsyncNatsIoErrorKind::AsyncNats_Io_NotConnected,
        std::io::ErrorKind::AddrInUse => AsyncNatsIoErrorKind::AsyncNats_Io_AddrInUse,
        std::io::ErrorKind::AddrNotAvailable => AsyncNatsIoErrorKind::AsyncNats_Io_AddrNotAvailable,
        std::io::ErrorKind::BrokenPipe => AsyncNatsIoErrorKind::AsyncNats_Io_BrokenPipe,
        std::io::ErrorKind::AlreadyExists => AsyncNatsIoErrorKind::AsyncNats_Io_AlreadyExists,
        std::io::ErrorKind::WouldBlock => AsyncNatsIoErrorKind::AsyncNats_Io_WouldBlock,
        std::io::ErrorKind::InvalidInput => AsyncNatsIoErrorKind::AsyncNats_Io_InvalidInput,
        std::io::ErrorKind::InvalidData => AsyncNatsIoErrorKind::AsyncNats_Io_InvalidData,
        std::io::ErrorKind::TimedOut => AsyncNatsIoErrorKind::AsyncNats_Io_TimedOut,
        std::io::ErrorKind::WriteZero => AsyncNatsIoErrorKind::AsyncNats_Io_WriteZero,
        _ => AsyncNatsIoErrorKind::AsyncNats_Io_Other,
    }
}

/// The IO failure beneath an error: its kind and, when the OS gave one, the
/// OS error code.
#[derive(Clone, Copy, Debug, PartialEq, Eq, Structural)]
pub struct AsyncNatsIoError {
    pub kind: AsyncNatsIoErrorKind,
    pub os_code: Option<i32>,
}

pub open spec fn io_error_spec(io: Option<(std::io::ErrorKind, Option<i32>)>) -> Option<AsyncNatsIoError> {
    match io {
        Some((k, os)) => Some(AsyncNatsIoError { kind: io_kind_spec(k), os_code: os }),
        None => None,
    }
}

pub fn io_error(io: Option<(std::io::ErrorKind, Option<i32>)>) -> (r: Option<AsyncNatsIoError>)
    ensures
        r == io_error_spec(io),
{
    match io {
        Some((k, os)) => Some(AsyncNatsIoError { kind: io_kind(k), os_code: os }),
        None => None,
    }
}

/// Why a connect failed.
#[allow(non_camel_case_types)]
#[derive(Clone, Copy, Debug, PartialEq, Eq, Structural)]
pub enum AsyncNatsConnectErrorKind {
    /// Parsing the passed server address failed.
    AsyncNats_Connect_ServerParse,
    /// DNS related issues.
    AsyncNats_Connect_Dns,
    /// Failed authentication process, signing nonce, etc.
    AsyncNats_Connect_Authentication,
    /// Server returned authorization violation error.
    AsyncNats_Connect_AuthorizationViolation,
    /// Connect timed out.
    AsyncNats_Connect_TimedOut,
    /// Erroneous TLS setup.
    AsyncNatsConnectTls,
    /// Other IO error, the reconnect limit included.
    AsyncNats_ConnectIo,
}

/// Why a request failed.
#[allow(non_camel_case_types)]
#[derive(Clone, Copy, Debug, PartialEq, Eq, Structural)]
pub enum AsyncNatsRequestErrorKind {
    /// There are services listening on requested subject, but they didn't
    /// respond in time.
    AsyncNats_Request_TimedOut,
    /// No one is listening on request subject.
    AsyncNats_Request_NoResponders,
    /// Other errors, client/io related.
    AsyncNats_Request_Other,
}

/// The kind the host sees for each kind of connect failure.
pub open spec fn connect_kind_spec(k: async_nats::ConnectErrorKind) -> AsyncNatsConnectErrorKind {
    match k {
        async_nats::ConnectErrorKind::ServerParse => AsyncNatsConnectErrorKind::AsyncNats_Connect_ServerParse,
        async_nats::ConnectErrorKind::Dns => AsyncNatsConnectErrorKind::AsyncNats_Connect_Dns,
        async_nats::ConnectErrorKind::Authentication => AsyncNatsConnectErrorKind::AsyncNats_Connect_Authentication,
        async_nats::ConnectErrorKind::AuthorizationViolation => AsyncNatsConnectErrorKind::AsyncNats_Connect_AuthorizationViolation,
        async_nats::ConnectErrorKind::TimedOut => AsyncNatsConnectErrorKind::AsyncNats_Connect_TimedOut,
        async_nats::ConnectErrorKind::Tls => AsyncNatsConnectErrorKind::AsyncNatsConnectTls,
        async_nats::ConnectErrorKind::Io => AsyncNatsConnectErrorKind::AsyncNats_ConnectIo,
        async_nats::ConnectErrorKind::MaxReconnects => AsyncNatsConnectErrorKind::AsyncNats_ConnectIo,
    }
}

/// The kind the host sees for each kind of request failure.
pub open spec fn request_kind_spec(k: async_nats::RequestErrorKind) -> AsyncNatsRequestErrorKind {
    match k {
        async_nats::RequestErrorKind::TimedOut => AsyncNatsRequestErrorKind::AsyncNats_Request_TimedOut,
        async_nats::RequestErrorKind::NoResponders => AsyncNatsRequestErrorKind::AsyncNats_Request_NoResponders,
        async_nats::RequestErrorKind::Other => AsyncNatsRequestErrorKind::AsyncNats_Request_Other,
    }
}

pub fn connect_kind(k: async_nats::ConnectErrorKind) -> (r: AsyncNatsConnectErrorKind)
    ensures
        r == connect_kind_spec(k),
{
    match k {
        async_nats::ConnectErrorKind::ServerParse => AsyncNatsConnectErrorKind::AsyncNats_Connect_ServerParse,
        async_nats::ConnectErrorKind::Dns => AsyncNatsConnectErrorKind::AsyncNats_Connect_Dns,
        async_nats::ConnectErrorKind::Authentication => AsyncNatsConnectErrorKind::AsyncNats_Connect_Authentication,
        async_nats::ConnectErrorKind::AuthorizationViolation => AsyncNatsConnectErrorKind::AsyncNats_Connect_AuthorizationViolation,
        async_nats::ConnectErrorKind::TimedOut => AsyncNatsConnectErrorKind::AsyncNats_Connect_TimedOut,
        async_nats::ConnectErrorKind::Tls => AsyncNatsConnectErrorKind::AsyncNatsConnectTls,
        async_nats::ConnectErrorKind::Io => AsyncNatsConnectErrorKind::AsyncNats_ConnectIo,
        async_nats::ConnectErrorKind::MaxReconnects => AsyncNatsConnectErrorKind::AsyncNats_ConnectIo,
    }
}

pub fn request_kind(k: async_nats::RequestErrorKind) -> (r: AsyncNatsRequestErrorKind)
    ensures
        r == request_kind_spec(k),
{
    match k {
        async_nats::RequestErrorKind::TimedOut => AsyncNatsRequestErrorKind::AsyncNats_Request_TimedOut,
        async_nats::RequestErrorKind::NoResponders => AsyncNatsRequestErrorKind::AsyncNats_Request_NoResponders,
        async_nats::RequestErrorKind::Other => AsyncNatsRequestErrorKind::AsyncNats_Request_Other,
    }
}

/// A failed connect, as the host sees it.
pub struct AsyncNatsConnectError {
    kind: AsyncNatsConnectErrorKind,
    description: String,
    io: Option<AsyncNatsIoError>,
}

impl AsyncNatsConnectError {
    pub closed spec fn kind_spec(&self) -> AsyncNatsConnectErrorKind {
        self.kind
    }

    pub closed spec fn description_spec(&self) -> Seq<char> {
        self.description@
    }

    pub closed spec fn io_spec(&self) -> Option<AsyncNatsIoError> {
        self.io
    }

    pub fn new(kind: AsyncNatsConnectErrorKind, description: String) -> (r: AsyncNatsConnectError)
        ensures
            r.kind_spec() == kind,
            r.description_spec() == description@,
            r.io_spec() is None,
    {
        AsyncNatsConnectError { kind, description, io: None }
    }

    /// The error object for a failure that async_nats reported with kind `k`
    /// and text `description`, over the IO failure `io` if there was one.
    pub fn from_parts(
        k: async_nats::ConnectErrorKind,
        description: String,
        io: Option<(std::io::ErrorKind, Option<i32>)>,
    ) -> (r: AsyncNatsConnectError)
        ensures
            r.kind_spec() == connect_kind_spec(k),
            r.description_spec() == description@,
            r.io_spec() == io_error_spec(io),
    {
        AsyncNatsConnectError { kind: connect_kind(k), description, io: io_error(io) }
    }

    /// The error object for what async_nats reported: its kind mapped to the
    /// host's set, the IO failure beneath it, and its text.
    pub fn from_error(e: &async_nats::ConnectError) -> (r: AsyncNatsConnectError)
        ensures
            r.kind_spec() == connect_kind_spec(connect_kind_of(*e)),
            r.io_spec() == io_error_spec(connect_io_of(*e)),
    {
        let k = connect_error_kind(e);
        Self::from_parts(k, connect_error_text(e), connect_error_io(e))
    }

    /// The IO failure beneath the error, if there is one.
    pub fn io_error(&self) -> (r: Option<AsyncNatsIoError>)
        ensures
            r == self.io_spec(),
    {
        self.io
    }

    /// The code of the IO kind beneath the error, or zero when there is no
    /// IO failure beneath it.
    pub fn io_kind_code(&self) -> (r: u8)
        ensures
            r == match self.io_spec() {
                Some(io) => io_code_spec(io.kind),
                None => 0,
            },
    {
        match self.io {
            Some(io) => io.kind.code(),
            None => 0,
        }
    }

    pub fn kind(&self) -> (r: AsyncNatsConnectErrorKind)
        ensures
            r == self.kind_spec(),
    {
        self.kind
    }

    pub fn description(&self) -> (r: &String)
        ensures
            r@ == self.description_spec(),
    {
        &self.description
    }
}

/// A failed request, as the host sees it.
pub struct AsyncNatsRequestError {
    kind: AsyncNatsRequestErrorKind,
    description: String,
}

impl AsyncNatsRequestError {
    pub closed spec fn kind_spec(&self) -> AsyncNatsRequestErrorKind {
        self.kind
    }

    pub closed spec fn description_spec(&self) -> Seq<char> {
        self.description@
    }

    pub fn new(kind: AsyncNatsRequestErrorKind, description: String) -> (r: AsyncNatsRequestError)
        ensures
            r.kind_spec() == kind,
            r.description_spec() == description@,
    {
        AsyncNatsRequestError { kind, description }
    }

    /// The error object for a failure that async_nats reported with kind `k`
    /// and text `description`.
    pub fn from_parts(k: async_nats::RequestErrorKind, description: String) -> (r: AsyncNatsRequestError)
        ensures
            r.kind_spec() == request_kind_spec(k),
            r.description_spec() == description@,
    {
        AsyncNatsRequestError { kind: request_kind(k), description }
    }

    /// The error object for what async_nats reported: its kind mapped to the
    /// host's set, and its text.
    pub fn from_error(e: &async_nats::RequestError) -> (r: AsyncNatsRequestError)
        ensures
            r.kind_spec() == request_kind_spec(request_kind_of(*e)),
    {
        let k = request_error_kind(e);
        Self::from_parts(k, request_error_text(e))
    }

    pub fn kind(&self) -> (r: AsyncNatsRequestErrorKind)
        ensures
            r == self.kind_spec(),
    {
        self.kind
    }

    pub fn description(&self) -> (r: &String)
        ensures
            r@ == self.description_spec(),
    {
        &self.description
    }
}

} // verus!
