//! What holds of every connection attempt, whatever the path, the request and
//! the socket's answer.

use vstd::prelude::*;

use crate::bindings::{connection_stream, connection_uri, io_cause};
use crate::connector::UdsConnector;
use actix_rt::net::UnixStream;
use actix_tls::connect::{ConnectError, Connection};
use awc::http::Uri;

verus! {

/// A connection that was opened carries the URI of the request that asked for
/// it, unchanged, and the very stream that the socket gave.
pub proof fn opened_connection_echoes_request(
    connector: UdsConnector,
    uri: Uri,
    stream: UnixStream,
    res: Result<Connection<Uri, UnixStream>, ConnectError>,
)
    requires
        connector.dial_for(uri).ends_in(Ok(stream), res),
    ensures
        res is Ok,
        connection_uri(res->Ok_0) == uri,
        connection_stream(res->Ok_0) == stream,
{
}

/// A socket that could not be opened gives a connect error that holds the
/// cause, never a connection.
pub proof fn failed_dial_is_connect_error(
    connector: UdsConnector,
    uri: Uri,
    cause: std::io::Error,
    res: Result<Connection<Uri, UnixStream>, ConnectError>,
)
    requires
        connector.dial_for(uri).ends_in(Err(cause), res),
    ensures
        res is Err,
        io_cause(res->Err_0) == Some(cause),
{
}

/// The socket that is dialled depends on the connector alone: two requests,
/// whatever their URIs, are sent to the same path.
pub proof fn dialled_path_ignores_request(
    connector: UdsConnector,
    first: Uri,
    second: Uri,
)
    ensures
        connector.dial_for(first).path == *connector.socket_path(),
        connector.dial_for(first).path == connector.dial_for(second).path,
{
}

/// A clone of a connector makes the same attempt for every request as the
/// connector it was cloned from, and the attempt ends the same way.
pub proof fn clone_dials_like_original(
    original: UdsConnector,
    copy: UdsConnector,
    uri: Uri,
)
    requires
        cloned::<UdsConnector>(original, copy),
    ensures
        copy.socket_path() == original.socket_path(),
        copy.dial_for(uri) == original.dial_for(uri),
        forall|outcome: Result<UnixStream, std::io::Error>,
            res: Result<Connection<Uri, UnixStream>, ConnectError>|
            copy.dial_for(uri).ends_in(outcome, res) == original.dial_for(uri).ends_in(
                outcome,
                res,
            ),
{
}

} // verus!
