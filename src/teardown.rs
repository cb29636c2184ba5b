//! TeardownCoordinator: credential revocation and server decommissioning.
use vstd::prelude::*;
use crate::error::Error;
use crate::identity::{parse_u64, spec_parse_u64};
use crate::models::ServerId;
use crate::protocol::{Next, Request, Response};

verus! {

/// The steps of decommissioning a server, in the order they run.
#[derive(Clone, Copy, Debug, PartialEq, Eq, Structural)]
pub enum TeardownStep {
    /// Read the server's configuration for its login credential.
    FetchServerInfo,
    /// Resolve the credential to its owning account.
    ResolveCredential,
    /// Revoke the credential.
    RevokeCredential,
    /// Stop the game-server process.
    StopServer,
    /// Delete the server allocation.
    DeleteServer,
}

impl TeardownStep {
    pub open spec fn spec_error(self) -> Error {
        match self {
            TeardownStep::ResolveCredential | TeardownStep::RevokeCredential => {
                Error::IdentityProviderError
            },
            _ => Error::UpstreamHostError,
        }
    }

    /// The kind of failure a failed step surfaces as.
    pub fn error(&self) -> (r: Error)
        ensures
            r == self.spec_error(),
    {
        match self {
            TeardownStep::ResolveCredential | TeardownStep::RevokeCredential => {
                Error::IdentityProviderError
            },
            _ => Error::UpstreamHostError,
        }
    }
}

#[derive(Clone, Copy, Debug, PartialEq, Eq, Structural)]
pub enum TeardownState {
    /// Waiting for the outcome of a step.
    Pending(TeardownStep),
    /// Every step succeeded: the server is gone.
    Finished,
    /// A step failed; the later ones were not run and the allocation stays.
    Failed(TeardownStep),
}

/// Sequences credential revocation and server decommissioning. Each step
/// runs only after the one before it succeeded; nothing is retried.
#[derive(Debug)]
pub struct TeardownCoordinator {
    pub server: ServerId,
    pub state: TeardownState,
}

pub open spec fn spec_teardown_start(server: ServerId) -> (TeardownCoordinator, Request) {
    (
        TeardownCoordinator { server, state: TeardownState::Pending(TeardownStep::FetchServerInfo) },
        Request::GetServerInfo { server },
    )
}

pub open spec fn spec_teardown_step(t: TeardownCoordinator, resp: Response) -> (
    TeardownCoordinator,
    Next,
) {
    let server = t.server;
    let go = |step: TeardownStep, req: Request|
        (TeardownCoordinator { server, state: TeardownState::Pending(step) }, Next::Call(req));
    let fail = |step: TeardownStep|
        (
            TeardownCoordinator { server, state: TeardownState::Failed(step) },
            Next::Failed(step.spec_error()),
        );
    match t.state {
        TeardownState::Pending(step) => match (step, resp) {
            (TeardownStep::FetchServerInfo, Response::ServerInfo(info)) => go(
                TeardownStep::ResolveCredential,
                Request::QueryLoginToken { gslt: info.csgo_settings.gslt },
            ),
            (TeardownStep::ResolveCredential, Response::LoginToken(found)) => match spec_parse_u64(
                found.steamid@,
            ) {
                Some(account) => go(
                    TeardownStep::RevokeCredential,
                    Request::DeleteGslt { steamid: account },
                ),
                None => fail(step),
            },
            (TeardownStep::RevokeCredential, Response::Done) => go(
                TeardownStep::StopServer,
                Request::StopServer { server },
            ),
            (TeardownStep::StopServer, Response::Done) => go(
                TeardownStep::DeleteServer,
                Request::DeleteServer { server },
            ),
            (TeardownStep::DeleteServer, Response::Done) => (
                TeardownCoordinator { server, state: TeardownState::Finished },
                Next::Finished,
            ),
            _ => fail(step),
        },
        TeardownState::Finished => (t, Next::Finished),
        TeardownState::Failed(step) => (t, Next::Failed(step.spec_error())),
    }
}

impl TeardownCoordinator {
    /// Begins decommissioning a server by reading its configuration.
    pub fn start(server: ServerId) -> (r: (TeardownCoordinator, Request))
        ensures
            r == spec_teardown_start(server),
    {
        let id = ServerId(server.0.clone());
        (
            TeardownCoordinator {
                server,
                state: TeardownState::Pending(TeardownStep::FetchServerInfo),
            },
            Request::GetServerInfo { server: id },
        )
    }

    /// Takes the outcome of the pending step and names the next call, or
    /// reports the end of the sequence or the step that failed.
    pub fn step(self, resp: Response) -> (r: (TeardownCoordinator, Next))
        ensures
            r == spec_teardown_step(self, resp),
    {
        let server = self.server;
        match self.state {
            TeardownState::Pending(step) => match (step, resp) {
                (TeardownStep::FetchServerInfo, Response::ServerInfo(info)) => (
                    TeardownCoordinator {
                        server,
                        state: TeardownState::Pending(TeardownStep::ResolveCredential),
                    },
                    Next::Call(Request::QueryLoginToken { gslt: info.csgo_settings.gslt }),
                ),
                (TeardownStep::ResolveCredential, Response::LoginToken(found)) => {
                    match parse_u64(found.steamid.as_str()) {
                        Some(account) => (
                            TeardownCoordinator {
                                server,
                                state: TeardownState::Pending(TeardownStep::RevokeCredential),
                            },
                            Next::Call(Request::DeleteGslt { steamid: account }),
                        ),
                        None => (
                            TeardownCoordinator { server, state: TeardownState::Failed(step) },
                            Next::Failed(step.error()),
                        ),
                    }
                },
                (TeardownStep::RevokeCredential, Response::Done) => {
                    let id = ServerId(server.0.clone());
                    (
                        TeardownCoordinator {
                            server,
                            state: TeardownState::Pending(TeardownStep::StopServer),
                        },
                        Next::Call(Request::StopServer { server: id }),
                    )
                },
                (TeardownStep::StopServer, Response::Done) => {
                    let id = ServerId(server.0.clone());
                    (
                        TeardownCoordinator {
                            server,
                            state: TeardownState::Pending(TeardownStep::DeleteServer),
                        },
                        Next::Call(Request::DeleteServer { server: id }),
                    )
                },
                (TeardownStep::DeleteServer, Response::Done) => (
                    TeardownCoordinator { server, state: TeardownState::Finished },
                    Next::Finished,
                ),
                _ => (
                    TeardownCoordinator { server, state: TeardownState::Failed(step) },
                    Next::Failed(step.error()),
                ),
            },
            TeardownState::Finished => (
                TeardownCoordinator { server, state: TeardownState::Finished },
                Next::Finished,
            ),
            TeardownState::Failed(step) => (
                TeardownCoordinator { server, state: TeardownState::Failed(step) },
                Next::Failed(step.error()),
            ),
        }
    }
}

} // verus!
