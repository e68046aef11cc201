//! The server that offers the CSI services on a socket: what it makes of
//! the steps of its start. Removing, binding and serving is the caller's
//! part.

use vstd::prelude::*;
use vstd::string::StringExecFns;

verus! {

/// The server of the CSI services.
#[derive(Debug, Default, Clone, Copy, PartialEq, Eq, Structural)]
pub struct CsiServer {}

/// What became of a step of the server's start.
#[derive(Debug)]
pub enum Startup {
    /// The socket left by an earlier run could not be removed, for the
    /// reason given; the flag says whether it was not there at all.
    StaleSocket(bool, String),
    /// The socket could not be bound.
    Bind,
    /// The services could not be served.
    Serve,
}

/// What the failure of a step of the start comes to: a socket that was
/// not there to remove is no failure; any other is told the caller.
pub open spec fn startup_failure(csi_socket: Seq<char>, failure: Startup) -> Option<Seq<char>> {
    match failure {
        Startup::StaleSocket(missing, reason) => if missing {
            None
        } else {
            Some("Error removing stale CSI socket "@ + csi_socket + ": "@ + reason@)
        },
        Startup::Bind => Some("Failed to bind CSI socket"@),
        Startup::Serve => Some("Failed to start gRPC server"@),
    }
}

impl CsiServer {
    /// Says whether the start of the server on `csi_socket` goes on after
    /// `failure`, and what is told the caller if it does not.
    pub fn check(csi_socket: &str, failure: Startup) -> (outcome: Result<(), String>)
        ensures
            match outcome {
                Ok(_) => startup_failure(csi_socket@, failure) is None,
                Err(message) => startup_failure(csi_socket@, failure) == Some(message@),
            },
    {
        match failure {
            Startup::StaleSocket(missing, reason) => {
                if missing {
                    return Ok(());
                }
                let mut message = String::from_str("Error removing stale CSI socket ");
                message.append(csi_socket);
                message.append(": ");
                message.append(reason.as_str());
                Err(message)
            },
            Startup::Bind => Err("Failed to bind CSI socket".to_owned()),
            Startup::Serve => Err("Failed to start gRPC server".to_owned()),
        }
    }
}

} // verus!
