//! The connector and the two halves of a connection attempt.

use vstd::prelude::*;

use crate::bindings::{
    connection_from, connection_stream, connection_uri, io_cause, io_failure, request_of,
    requested_uri,
};
use actix_rt::net::UnixStream;
use actix_tls::connect::{ConnectError, ConnectInfo, Connection};
use awc::http::Uri;
use std::path::PathBuf;
use std::task::Poll;

verus! {

/// Dials the Unix domain socket at one fixed path.
///
/// The path is set when the connector is made and never changes. A clone
/// holds the same path and shares nothing else with the original.
pub struct UdsConnector(PathBuf);

/// One connection attempt, ready to be carried out: the socket to open, and
/// the URI that goes back to the client with the stream.
pub struct Dial {
    /// The socket to open.
    pub path: PathBuf,
    /// The URI of the request that asked for the connection.
    pub uri: Uri,
}

impl UdsConnector {
    /// The path that this connector dials.
    pub closed spec fn spec_socket_path(&self) -> &PathBuf {
        &self.0
    }

    /// The attempt that this connector makes for a request with the URI
    /// `uri`: its own path, and the URI untouched.
    pub open spec fn dial_for(&self, uri: Uri) -> Dial {
        Dial { path: *self.socket_path(), uri }
    }

    /// A connector for the socket at `path`. The path is not looked up: whether
    /// a socket is there shows when a connection is attempted.
    pub fn new(path: PathBuf) -> (connector: Self)
        ensures
            *connector.socket_path() == path,
    {
        UdsConnector(path)
    }

    /// The path that this connector dials.
    #[verifier::when_used_as_spec(spec_socket_path)]
    pub fn socket_path(&self) -> (path: &PathBuf)
        ensures
            path == self.spec_socket_path(),
    {
        &self.0
    }

    /// Whether the connector can take a request now. It holds no slot or
    /// other limited resource, so it always can.
    pub fn poll_ready(&self) -> (status: Poll<Result<(), ConnectError>>)
        ensures
            status == Poll::<Result<(), ConnectError>>::Ready(Ok(())),
    {
        Poll::Ready(Ok(()))
    }

    /// What to dial for a request with the URI `uri`. The host and port that
    /// the URI names play no part: the socket is the connector's own.
    pub fn dial(&self, uri: Uri) -> (dial: Dial)
        ensures
            dial == self.dial_for(uri),
    {
        Dial { path: self.0.clone(), uri }
    }

    /// The first half of a connection attempt: what to dial for `req`, which
    /// is what [`UdsConnector::dial`] gives for the URI that `req` holds.
    pub fn prepare(&self, req: ConnectInfo<Uri>) -> (dial: Dial)
        ensures
            dial == self.dial_for(requested_uri(req)),
    {
        let uri = request_of(&req).clone();
        self.dial(uri)
    }
}

impl Clone for UdsConnector {
    fn clone(&self) -> (copy: Self)
        ensures
            copy == *self,
    {
        UdsConnector(self.0.clone())
    }
}

impl Dial {
    /// Whether `res` is how this attempt ends once the socket has answered
    /// with `outcome`: an opened stream comes back in a connection with the
    /// attempt's URI, a failure comes back as a connect error around its cause.
    pub open spec fn ends_in(
        self,
        outcome: Result<UnixStream, std::io::Error>,
        res: Result<Connection<Uri, UnixStream>, ConnectError>,
    ) -> bool {
        match outcome {
            Ok(stream) => {
                &&& res is Ok
                &&& connection_uri(res->Ok_0) == self.uri
                &&& connection_stream(res->Ok_0) == stream
            },
            Err(cause) => {
                &&& res is Err
                &&& io_cause(res->Err_0) == Some(cause)
            },
        }
    }

    /// The second half of a connection attempt: turns what opening the socket
    /// gave into what the client is handed.
    pub fn complete(self, outcome: Result<UnixStream, std::io::Error>) -> (res: Result<
        Connection<Uri, UnixStream>,
        ConnectError,
    >)
        ensures
            self.ends_in(outcome, res),
    {
        match outcome {
            Ok(stream) => Ok(connection_from(self.uri, stream)),
            Err(cause) => Err(io_failure(cause)),
        }
    }
}

} // verus!
