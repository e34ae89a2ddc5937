use async_nats::{ConnectErrorKind, RequestErrorKind};
use nats_bridge::error::AsyncNatsConnectErrorKind as K;
use nats_bridge::error::AsyncNatsRequestErrorKind as R;
use nats_bridge::error::{
    io_kind, AsyncNatsIoError, AsyncNatsIoErrorKind,
    connect_kind, request_kind, AsyncNatsConnectError, AsyncNatsConnectErrorKind,
    AsyncNatsRequestError, AsyncNatsRequestErrorKind,
};

#[test]
fn connect_kinds_map_one_to_one() {
    assert_eq!(connect_kind(ConnectErrorKind::ServerParse), K::AsyncNats_Connect_ServerParse);
    assert_eq!(connect_kind(ConnectErrorKind::Dns), K::AsyncNats_Connect_Dns);
    assert_eq!(connect_kind(ConnectErrorKind::Authentication), K::AsyncNats_Connect_Authentication);
    assert_eq!(
        connect_kind(ConnectErrorKind::AuthorizationViolation),
        K::AsyncNats_Connect_AuthorizationViolation
    );
    assert_eq!(connect_kind(ConnectErrorKind::TimedOut), K::AsyncNats_Connect_TimedOut);
    assert_eq!(connect_kind(ConnectErrorKind::Tls), K::AsyncNatsConnectTls);
    assert_eq!(connect_kind(ConnectErrorKind::Io), K::AsyncNats_ConnectIo);
    assert_eq!(connect_kind(ConnectErrorKind::MaxReconnects), K::AsyncNats_ConnectIo);
}

#[test]
fn request_kinds_map_one_to_one() {
    assert_eq!(request_kind(RequestErrorKind::TimedOut), R::AsyncNats_Request_TimedOut);
    assert_eq!(request_kind(RequestErrorKind::NoResponders), R::AsyncNats_Request_NoResponders);
    assert_eq!(request_kind(RequestErrorKind::Other), R::AsyncNats_Request_Other);
}

// A request on a subject nobody listens to fails with one of these two
// kinds; the error object keeps the kind and the text.
#[test]
fn unanswered_request_yields_a_request_error() {
    for (raw, text) in [
        (RequestErrorKind::NoResponders, "no responders"),
        (RequestErrorKind::TimedOut, "request timed out"),
    ] {
        let e = AsyncNatsRequestError::from_parts(raw, text.to_string());
        assert!(matches!(
            e.kind(),
            AsyncNatsRequestErrorKind::AsyncNats_Request_NoResponders
                | AsyncNatsRequestErrorKind::AsyncNats_Request_TimedOut
        ));
        assert_eq!(e.description(), text);
    }
}

#[test]
fn error_objects_keep_kind_and_text() {
    let e = AsyncNatsConnectError::from_parts(ConnectErrorKind::TimedOut, "timed out".to_string(), None);
    assert_eq!(e.io_error(), None);
    assert_eq!(e.io_kind_code(), 0);
    assert_eq!(e.kind(), AsyncNatsConnectErrorKind::AsyncNats_Connect_TimedOut);
    assert_eq!(e.description(), "timed out");
    let e = AsyncNatsConnectError::new(AsyncNatsConnectErrorKind::AsyncNats_Connect_Dns, "dns".to_string());
    assert_eq!(e.kind(), AsyncNatsConnectErrorKind::AsyncNats_Connect_Dns);
    let r = AsyncNatsRequestError::new(AsyncNatsRequestErrorKind::AsyncNats_Request_Other, "x".to_string());
    assert_eq!(r.kind(), AsyncNatsRequestErrorKind::AsyncNats_Request_Other);
    assert_eq!(r.description(), "x");
}

#[test]
fn error_objects_from_client_errors() {
    let raw: async_nats::RequestError = RequestErrorKind::NoResponders.into();
    let e = AsyncNatsRequestError::from_error(&raw);
    assert_eq!(e.kind(), AsyncNatsRequestErrorKind::AsyncNats_Request_NoResponders);
    assert_eq!(e.description(), "no responders");
    let raw: async_nats::ConnectError = ConnectErrorKind::Tls.into();
    let e = AsyncNatsConnectError::from_error(&raw);
    assert_eq!(e.kind(), AsyncNatsConnectErrorKind::AsyncNatsConnectTls);
    assert_eq!(e.description(), "TLS error");
}

#[test]
fn io_kinds_have_stable_codes() {
    let all = [
        (std::io::ErrorKind::NotFound, AsyncNatsIoErrorKind::AsyncNats_Io_NotFound, 1u8),
        (std::io::ErrorKind::PermissionDenied, AsyncNatsIoErrorKind::AsyncNats_Io_PermissionDenied, 2),
        (std::io::ErrorKind::ConnectionRefused, AsyncNatsIoErrorKind::AsyncNats_Io_ConnectionRefused, 3),
        (std::io::ErrorKind::ConnectionReset, AsyncNatsIoErrorKind::AsyncNats_Io_ConnectionReset, 4),
        (std::io::ErrorKind::ConnectionAborted, AsyncNatsIoErrorKind::AsyncNats_Io_ConnectionAborted, 5),
        (std::io::ErrorKind::NotConnected, AsyncNatsIoErrorKind::AsyncNats_Io_NotConnected, 6),
        (std::io::ErrorKind::AddrInUse, AsyncNatsIoErrorKind::AsyncNats_Io_AddrInUse, 7),
        (std::io::ErrorKind::AddrNotAvailable, AsyncNatsIoErrorKind::AsyncNats_Io_AddrNotAvailable, 8),
        (std::io::ErrorKind::BrokenPipe, AsyncNatsIoErrorKind::AsyncNats_Io_BrokenPipe, 9),
        (std::io::ErrorKind::AlreadyExists, AsyncNatsIoErrorKind::AsyncNats_Io_AlreadyExists, 10),
        (std::io::ErrorKind::WouldBlock, AsyncNatsIoErrorKind::AsyncNats_Io_WouldBlock, 11),
        (std::io::ErrorKind::InvalidInput, AsyncNatsIoErrorKind::AsyncNats_Io_InvalidInput, 12),
        (std::io::ErrorKind::InvalidData, AsyncNatsIoErrorKind::AsyncNats_Io_InvalidData, 13),
        (std::io::ErrorKind::TimedOut, AsyncNatsIoErrorKind::AsyncNats_Io_TimedOut, 14),
        (std::io::ErrorKind::WriteZero, AsyncNatsIoErrorKind::AsyncNats_Io_WriteZero, 15),
        (std::io::ErrorKind::Other, AsyncNatsIoErrorKind::AsyncNats_Io_Other, 16),
    ];
    for (std_kind, kind, code) in all {
        assert_eq!(io_kind(std_kind), kind);
        assert_eq!(kind.code(), code);
        assert_eq!(AsyncNatsIoErrorKind::from_code(code), Some(kind));
    }
    assert_eq!(io_kind(std::io::ErrorKind::Interrupted), AsyncNatsIoErrorKind::AsyncNats_Io_Other);
    assert_eq!(io_kind(std::io::ErrorKind::UnexpectedEof), AsyncNatsIoErrorKind::AsyncNats_Io_Other);
    assert_eq!(AsyncNatsIoErrorKind::from_code(0), None);
    assert_eq!(AsyncNatsIoErrorKind::from_code(17), None);
}

#[test]
fn connect_error_keeps_the_io_failure_beneath_it() {
    let e = AsyncNatsConnectError::from_parts(
        ConnectErrorKind::Io,
        "connection refused".to_string(),
        Some((std::io::ErrorKind::ConnectionRefused, Some(111))),
    );
    assert_eq!(e.kind(), K::AsyncNats_ConnectIo);
    assert_eq!(
        e.io_error(),
        Some(AsyncNatsIoError { kind: AsyncNatsIoErrorKind::AsyncNats_Io_ConnectionRefused, os_code: Some(111) })
    );
    assert_eq!(e.io_kind_code(), 3);
}

#[test]
fn connect_error_from_client_io_error() {
    let raw: async_nats::ConnectError =
        std::io::Error::new(std::io::ErrorKind::ConnectionRefused, "refused").into();
    let e = AsyncNatsConnectError::from_error(&raw);
    assert_eq!(e.kind(), K::AsyncNats_ConnectIo);
    assert_eq!(e.io_kind_code(), 3);
    assert_eq!(e.io_error().map(|io| io.os_code), Some(None));
}
