//! The calls a handler session asks for, and the outcomes it is handed back.
use vstd::prelude::*;
use crate::error::Error;
use crate::models::{
    DatHostServer, MatchId, MatchSeries, MatchSeriesId, QueryLoginTokenResponse, ServerId, TeamId,
};

verus! {

/// A call the lifecycle asks its caller to make on one of its collaborators:
/// the store, the game-server host, the archive or the identity provider.
#[derive(Debug)]
pub enum Request {
    /// Store: the series bound to a server.
    FindSeries { server: ServerId },
    /// Host: the map a server is currently configured for.
    GetServerMap { server: ServerId },
    /// Store: the match of a series played on a map.
    FindMatch { series: MatchSeriesId, map: String },
    /// Store: whether an account is on the roster of a team of a series.
    IsPlayerOnTeam { series: MatchSeriesId, team: TeamId, account: i64 },
    /// Store: overwrite the score pair of a match.
    UpdateScores { match_id: MatchId, team_one_score: i32, team_two_score: i32 },
    /// Store: the completion timestamps of every match of a series.
    ListCompletions { series: MatchSeriesId },
    /// Store: set a match's completion timestamp.
    CompleteMatch { match_id: MatchId },
    /// Store: set a series' completion timestamp.
    CompleteSeries { series: MatchSeriesId },
    /// Give the host's recording pipeline time to finish writing.
    WaitForRecording,
    /// Host: read a file of a server.
    GetFile { server: ServerId, path: String },
    /// Archive: store bytes under a key.
    PutObject { key: String, content: Vec<u8> },
    /// Host: the live configuration of a server.
    GetServerInfo { server: ServerId },
    /// Identity provider: the account owning a login credential.
    QueryLoginToken { gslt: String },
    /// Identity provider: revoke the login credential of an account.
    DeleteGslt { steamid: u64 },
    /// Host: stop the game-server process.
    StopServer { server: ServerId },
    /// Host: delete the server allocation.
    DeleteServer { server: ServerId },
}

/// The outcome of the last request, as the caller observed it.
#[derive(Debug)]
pub enum Response {
    Series(Option<MatchSeries>),
    MapName(String),
    Match(Option<MatchId>),
    Membership(bool),
    Completions(Vec<Option<i64>>),
    File(Vec<u8>),
    /// The archive's status code for a write.
    Stored(u16),
    ServerInfo(DatHostServer),
    LoginToken(QueryLoginTokenResponse),
    /// The request succeeded and returns nothing.
    Done,
    /// The request failed.
    Failed,
}

/// What a handler wants after a step.
#[derive(Debug)]
pub enum Next {
    Call(Request),
    Finished,
    Failed(Error),
}

/// The archive reports a successful write with this status.
pub const ARCHIVE_STORED: u16 = 200;

} // verus!
