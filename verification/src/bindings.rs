//! The types of `std`, `actix-rt`, `actix-tls` and `awc` that the connector
//! carries, and the few calls it makes on them.
//!
//! Nothing in this file is proved. Each contract restates what the called
//! function is documented to do.

use vstd::prelude::*;

use actix_rt::net::UnixStream;
use actix_tls::connect::{ConnectError, ConnectInfo, Connection};
use awc::http::Uri;
use std::path::PathBuf;
use std::task::Poll;

verus! {

/// `std::path::PathBuf`, carried as an opaque value.
#[verifier::external_type_specification]
#[verifier::external_body]
pub struct ExPathBuf(PathBuf);

/// `std::io::Error`, carried as an opaque value.
#[verifier::external_type_specification]
#[verifier::external_body]
pub struct ExIoError(std::io::Error);

/// `http::Uri` as `awc` exports it, carried as an opaque value.
#[verifier::external_type_specification]
#[verifier::external_body]
pub struct ExUri(Uri);

/// `tokio::net::UnixStream` as `actix-rt` exports it, carried as an opaque value.
#[verifier::external_type_specification]
#[verifier::external_body]
pub struct ExUnixStream(UnixStream);

/// `actix_tls::connect::ConnectInfo`, the request that a client hands to a
/// connector.
#[verifier::external_type_specification]
#[verifier::external_body]
#[verifier::reject_recursive_types(R)]
pub struct ExConnectInfo<R>(ConnectInfo<R>);

/// `actix_tls::connect::Connection`, a request paired with the stream opened for it.
#[verifier::external_type_specification]
#[verifier::external_body]
#[verifier::reject_recursive_types(R)]
#[verifier::reject_recursive_types(IO)]
pub struct ExConnection<R, IO>(Connection<R, IO>);

/// `actix_tls::connect::ConnectError`.
#[verifier::external_type_specification]
#[verifier::external_body]
pub struct ExConnectError(ConnectError);

/// `std::task::Poll`, with its two variants as `std` defines them, so that a
/// contract can say which one a value is.
#[verifier::external_type_specification]
#[verifier::reject_recursive_types(T)]
pub struct ExPoll<T>(Poll<T>);

/// The request that a `ConnectInfo` holds.
pub uninterp spec fn requested_uri(info: ConnectInfo<Uri>) -> Uri;

/// The request that a `Connection` holds.
pub uninterp spec fn connection_uri(conn: Connection<Uri, UnixStream>) -> Uri;

/// The stream that a `Connection` holds.
pub uninterp spec fn connection_stream(conn: Connection<Uri, UnixStream>) -> UnixStream;

/// The I/O error that a `ConnectError` of the variant `Io` holds.
pub uninterp spec fn io_cause(err: ConnectError) -> Option<std::io::Error>;

/// `PathBuf::clone`: the copy is the same path.
pub assume_specification[ <PathBuf as Clone>::clone ](path: &PathBuf) -> (copy: PathBuf)
    ensures
        copy == *path,
;

/// `Uri::clone`: the copy is the same URI.
pub assume_specification[ <Uri as Clone>::clone ](uri: &Uri) -> (copy: Uri)
    ensures
        copy == *uri,
;

/// `ConnectInfo::request`: a reference to the request that the info was made from.
#[verifier::external_body]
pub(crate) fn request_of(info: &ConnectInfo<Uri>) -> (uri: &Uri)
    ensures
        *uri == requested_uri(*info),
{
    info.request()
}

/// `Connection::new`: the connection holds the request and the stream it was
/// given.
#[verifier::external_body]
pub(crate) fn connection_from(uri: Uri, stream: UnixStream) -> (conn: Connection<Uri, UnixStream>)
    ensures
        connection_uri(conn) == uri,
        connection_stream(conn) == stream,
{
    Connection::new(uri, stream)
}

/// `ConnectError::Io`: the variant for a failed connection, around its cause.
#[verifier::external_body]
pub(crate) fn io_failure(cause: std::io::Error) -> (err: ConnectError)
    ensures
        io_cause(err) == Some(cause),
{
    ConnectError::Io(cause)
}

} // verus!
