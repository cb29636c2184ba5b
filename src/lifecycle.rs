//! LifecycleOrchestrator: one session per webhook event. A session names
//! the next call on the store, the host, the archive or the identity
//! provider; its caller performs it and hands back the outcome. No call is
//! made before the previous one's outcome is known, and any failure ends the
//! session with its error kind.
use vstd::prelude::*;
use crate::archive::{
    demo_filename, series_archive_key, spec_demo_filename, spec_name, spec_series_archive_key,
    ArchiveNamer,
};
use crate::error::Error;
use crate::models::{
    DatHostMatch, DatHostMatchSeries, MatchId, MatchSeries, MatchSeriesId, SeriesType, ServerId,
    TeamId,
};
use crate::progress::{all_completed, spec_count_incomplete, SeriesProgressTracker};
use crate::protocol::{Next, Request, Response, ARCHIVE_STORED};
use crate::reconcile::{
    fits_store, spec_attribute, spec_probe_account, store_scores, ScoreReconciler,
};
use crate::teardown::{spec_teardown_start, spec_teardown_step, TeardownCoordinator};

verus! {

/// The two slot scores of an event, when both are present.
pub open spec fn spec_slot_scores(event: DatHostMatch) -> Option<(u32, u32)> {
    match (event.team1_stats, event.team2_stats) {
        (Some(one), Some(two)) => Some((one.score, two.score)),
        _ => None,
    }
}

fn slot_scores(event: &DatHostMatch) -> (r: Option<(u32, u32)>)
    ensures
        r == spec_slot_scores(*event),
{
    match (&event.team1_stats, &event.team2_stats) {
        (Some(one), Some(two)) => Some((one.score, two.score)),
        _ => None,
    }
}

fn copy_server(server: &ServerId) -> (r: ServerId)
    ensures
        r == *server,
{
    ServerId(server.0.clone())
}

fn copy_string(s: &String) -> (r: String)
    ensures
        r == *s,
{
    s.clone()
}

fn copy_series(series: &MatchSeries) -> (r: MatchSeries)
    ensures
        r == *series,
{
    let dathost_match = match &series.dathost_match {
        Some(reference) => Some(copy_string(reference)),
        None => None,
    };
    MatchSeries {
        id: series.id,
        team_one: series.team_one,
        team_two: series.team_two,
        series_type: series.series_type,
        dathost_match,
        created_at: series.created_at,
        completed_at: series.completed_at,
    }
}

/// The host's reference for a series: the one the event carries, else the
/// persisted one.
pub open spec fn spec_external_id(event_ref: Option<String>, series: MatchSeries) -> Option<
    String,
> {
    match event_ref {
        Some(reference) => Some(reference),
        None => series.dathost_match,
    }
}

fn external_id(event_ref: &Option<String>, series: &MatchSeries) -> (r: Option<String>)
    ensures
        r == spec_external_id(*event_ref, *series),
{
    match event_ref {
        Some(reference) => Some(copy_string(reference)),
        None => match &series.dathost_match {
            Some(reference) => Some(copy_string(reference)),
            None => None,
        },
    }
}

/// Where a round-end session stands.
#[derive(Debug)]
pub enum RoundEndPhase {
    /// Waiting for the series bound to the event's server.
    FindSeries,
    /// Waiting for the host to name the server's map.
    GetMap { series: MatchSeries },
    /// Waiting for the match of the series on the map.
    FindMatch { series: MatchSeries },
    /// Waiting to learn whether the first slot-one player is on team one.
    CheckSlotOne { series: MatchSeries, match_id: MatchId, slot_one: u32, slot_two: u32 },
    /// Waiting for the score write.
    WriteScores { series: MatchSeries, match_id: MatchId },
    /// Scores are stored for this match of this series.
    Finished { series: MatchSeries, match_id: MatchId },
    Failed(Error),
}

/// Handles a round-end event: resolves series, map and match, attributes the
/// slot scores to the persisted teams and overwrites the match's score pair.
#[derive(Debug)]
pub struct RoundEnd {
    pub event: DatHostMatch,
    pub phase: RoundEndPhase,
}

pub open spec fn spec_round_end_start(event: DatHostMatch) -> (RoundEnd, Request) {
    (
        RoundEnd { event, phase: RoundEndPhase::FindSeries },
        Request::FindSeries { server: event.server_id },
    )
}

pub open spec fn find_match_request(series: MatchSeries, map: String) -> Request {
    Request::FindMatch { series: MatchSeriesId(series.id), map }
}

pub open spec fn spec_round_end_step(s: RoundEnd, resp: Response) -> (RoundEnd, Next) {
    let event = s.event;
    let to = |phase: RoundEndPhase, req: Request| (RoundEnd { event, phase }, Next::Call(req));
    let fail = |e: Error| (RoundEnd { event, phase: RoundEndPhase::Failed(e) }, Next::Failed(e));
    match s.phase {
        RoundEndPhase::FindSeries => match resp {
            Response::Series(Some(series)) => match event.map {
                Some(map) => to(RoundEndPhase::FindMatch { series }, find_match_request(series, map)),
                None => to(
                    RoundEndPhase::GetMap { series },
                    Request::GetServerMap { server: event.server_id },
                ),
            },
            Response::Series(None) => fail(Error::UnknownServer),
            _ => fail(Error::StoreError),
        },
        RoundEndPhase::GetMap { series } => match resp {
            Response::MapName(map) => to(
                RoundEndPhase::FindMatch { series },
                find_match_request(series, map),
            ),
            _ => fail(Error::UpstreamHostError),
        },
        RoundEndPhase::FindMatch { series } => match resp {
            Response::Match(Some(match_id)) => match spec_slot_scores(event) {
                None => fail(Error::InvalidEvent),
                Some((slot_one, slot_two)) => match spec_probe_account(event.team1_steam_ids@) {
                    Err(e) => fail(e),
                    Ok(account) => to(
                        RoundEndPhase::CheckSlotOne { series, match_id, slot_one, slot_two },
                        Request::IsPlayerOnTeam {
                            series: MatchSeriesId(series.id),
                            team: TeamId(series.team_one),
                            account: account as i64,
                        },
                    ),
                },
            },
            Response::Match(None) => fail(Error::UnknownMap),
            _ => fail(Error::StoreError),
        },
        RoundEndPhase::CheckSlotOne { series, match_id, slot_one, slot_two } => match resp {
            Response::Membership(on_team_one) => {
                let scores = spec_attribute(slot_one, slot_two, on_team_one);
                if fits_store(scores) {
                    to(
                        RoundEndPhase::WriteScores { series, match_id },
                        Request::UpdateScores {
                            match_id,
                            team_one_score: scores.team_one_score as i32,
                            team_two_score: scores.team_two_score as i32,
                        },
                    )
                } else {
                    fail(Error::InvalidEvent)
                }
            },
            _ => fail(Error::StoreError),
        },
        RoundEndPhase::WriteScores { series, match_id } => match resp {
            Response::Done => (
                RoundEnd { event, phase: RoundEndPhase::Finished { series, match_id } },
                Next::Finished,
            ),
            _ => fail(Error::StoreError),
        },
        RoundEndPhase::Finished { .. } => (s, Next::Finished),
        RoundEndPhase::Failed(e) => (s, Next::Failed(e)),
    }
}

impl RoundEnd {
    /// Begins handling the event by looking up the series bound to its server.
    pub fn start(event: DatHostMatch) -> (r: (RoundEnd, Request))
        ensures
            r == spec_round_end_start(event),
    {
        let server = copy_server(&event.server_id);
        (RoundEnd { event, phase: RoundEndPhase::FindSeries }, Request::FindSeries { server })
    }

    /// Takes the outcome of the pending call and names the next one, or
    /// reports completion or the error that ends the handler.
    pub fn step(self, resp: Response) -> (r: (RoundEnd, Next))
        ensures
            r == spec_round_end_step(self, resp),
    {
        let RoundEnd { event, phase } = self;
        match phase {
            RoundEndPhase::FindSeries => match resp {
                Response::Series(Some(series)) => match &event.map {
                    Some(map) => {
                        let map = map.clone();
                        let req = Request::FindMatch { series: MatchSeriesId(series.id), map };
                        (RoundEnd { event, phase: RoundEndPhase::FindMatch { series } }, Next::Call(req))
                    },
                    None => {
                        let server = copy_server(&event.server_id);
                        (
                            RoundEnd { event, phase: RoundEndPhase::GetMap { series } },
                            Next::Call(Request::GetServerMap { server }),
                        )
                    },
                },
                Response::Series(None) => (
                    RoundEnd { event, phase: RoundEndPhase::Failed(Error::UnknownServer) },
                    Next::Failed(Error::UnknownServer),
                ),
                _ => (
                    RoundEnd { event, phase: RoundEndPhase::Failed(Error::StoreError) },
                    Next::Failed(Error::StoreError),
                ),
            },
            RoundEndPhase::GetMap { series } => match resp {
                Response::MapName(map) => {
                    let req = Request::FindMatch { series: MatchSeriesId(series.id), map };
                    (RoundEnd { event, phase: RoundEndPhase::FindMatch { series } }, Next::Call(req))
                },
                _ => (
                    RoundEnd { event, phase: RoundEndPhase::Failed(Error::UpstreamHostError) },
                    Next::Failed(Error::UpstreamHostError),
                ),
            },
            RoundEndPhase::FindMatch { series } => match resp {
                Response::Match(Some(match_id)) => match slot_scores(&event) {
                    None => (
                        RoundEnd { event, phase: RoundEndPhase::Failed(Error::InvalidEvent) },
                        Next::Failed(Error::InvalidEvent),
                    ),
                    Some((slot_one, slot_two)) => match ScoreReconciler::probe_account(
                        &event.team1_steam_ids,
                    ) {
                        Err(e) => (
                            RoundEnd { event, phase: RoundEndPhase::Failed(e) },
                            Next::Failed(e),
                        ),
                        Ok(account) => {
                            let req = Request::IsPlayerOnTeam {
                                series: MatchSeriesId(series.id),
                                team: TeamId(series.team_one),
                                account: account as i64,
                            };
                            (
                                RoundEnd {
                                    event,
                                    phase: RoundEndPhase::CheckSlotOne {
                                        series,
                                        match_id,
                                        slot_one,
                                        slot_two,
                                    },
                                },
                                Next::Call(req),
                            )
                        },
                    },
                },
                Response::Match(None) => (
                    RoundEnd { event, phase: RoundEndPhase::Failed(Error::UnknownMap) },
                    Next::Failed(Error::UnknownMap),
                ),
                _ => (
                    RoundEnd { event, phase: RoundEndPhase::Failed(Error::StoreError) },
                    Next::Failed(Error::StoreError),
                ),
            },
            RoundEndPhase::CheckSlotOne { series, match_id, slot_one, slot_two } => match resp {
                Response::Membership(on_team_one) => {
                    let scores = ScoreReconciler::attribute(slot_one, slot_two, on_team_one);
                    match store_scores(scores) {
                        Ok((team_one_score, team_two_score)) => (
                            RoundEnd { event, phase: RoundEndPhase::WriteScores { series, match_id } },
                            Next::Call(
                                Request::UpdateScores { match_id, team_one_score, team_two_score },
                            ),
                        ),
                        Err(e) => (
                            RoundEnd { event, phase: RoundEndPhase::Failed(e) },
                            Next::Failed(e),
                        ),
                    }
                },
                _ => (
                    RoundEnd { event, phase: RoundEndPhase::Failed(Error::StoreError) },
                    Next::Failed(Error::StoreError),
                ),
            },
            RoundEndPhase::WriteScores { series, match_id } => match resp {
                Response::Done => (
                    RoundEnd { event, phase: RoundEndPhase::Finished { series, match_id } },
                    Next::Finished,
                ),
                _ => (
                    RoundEnd { event, phase: RoundEndPhase::Failed(Error::StoreError) },
                    Next::Failed(Error::StoreError),
                ),
            },
            RoundEndPhase::Finished { series, match_id } => (
                RoundEnd { event, phase: RoundEndPhase::Finished { series, match_id } },
                Next::Finished,
            ),
            RoundEndPhase::Failed(e) => (
                RoundEnd { event, phase: RoundEndPhase::Failed(e) },
                Next::Failed(e),
            ),
        }
    }
}

/// The number of other maps of the series still unfinished when this one
/// ended, from the count of unfinished maps taken before it is marked
/// complete (which includes it).
pub open spec fn spec_remaining_before(incomplete: nat) -> nat {
    if incomplete == 0 {
        0
    } else {
        (incomplete - 1) as nat
    }
}

/// The archive key of the recording of a map that ended, given the
/// completion timestamps of the series read before it is marked complete.
/// A series holding at least as many other unfinished maps as its format has
/// maps is inconsistent; a longer format needs the host's series reference.
pub open spec fn spec_map_end_key(
    event: DatHostMatch,
    series: MatchSeries,
    completed_at: Seq<Option<i64>>,
) -> Result<Seq<char>, Error> {
    let raw = spec_demo_filename(event.id@);
    let remaining = spec_remaining_before(spec_count_incomplete(completed_at));
    if series.series_type == SeriesType::Bo1 {
        Ok(raw)
    } else if remaining >= series.series_type.spec_total_maps() {
        Err(Error::StoreError)
    } else {
        match spec_external_id(event.match_series_id, series) {
            Some(reference) => Ok(
                spec_name(series.series_type, reference@, raw, remaining as u32),
            ),
            None => Err(Error::InvalidEvent),
        }
    }
}

fn map_end_key(event: &DatHostMatch, series: &MatchSeries, completed_at: &Vec<Option<i64>>) -> (r:
    Result<String, Error>)
    ensures
        match spec_map_end_key(*event, *series, completed_at@) {
            Ok(k) => r matches Ok(key) && key@ == k,
            Err(e) => r == Err::<String, Error>(e),
        },
{
    let raw = demo_filename(event.id.as_str());
    let incomplete = SeriesProgressTracker::count_incomplete(completed_at);
    let remaining: u64 = if incomplete == 0 {
        0
    } else {
        incomplete - 1
    };
    if series.series_type == SeriesType::Bo1 {
        return Ok(ArchiveNamer::name(SeriesType::Bo1, "", raw.as_str(), 0));
    }
    if remaining >= series.series_type.total_maps() as u64 {
        return Err(Error::StoreError);
    }
    match external_id(&event.match_series_id, series) {
        Some(reference) => Ok(
            ArchiveNamer::name(
                series.series_type,
                reference.as_str(),
                raw.as_str(),
                remaining as u32,
            ),
        ),
        None => Err(Error::InvalidEvent),
    }
}

/// Where a map-end session stands.
#[derive(Debug)]
pub enum MapEndPhase {
    /// The round-end work is in progress in the embedded session.
    Scores,
    /// Waiting for the completion timestamps, read before this map is marked complete.
    CountBefore { series: MatchSeries, match_id: MatchId },
    /// Waiting for the recording pipeline; the archive key is known.
    AwaitRecording { series: MatchSeries, match_id: MatchId, key: String },
    /// Waiting for the recording's bytes.
    FetchRecording { series: MatchSeries, match_id: MatchId, key: String },
    /// Waiting for the archive to store the recording.
    StoreRecording { series: MatchSeries, match_id: MatchId },
    /// Waiting for the match's completion to be stored.
    CompleteMatch { series: MatchSeries, match_id: MatchId },
    /// Waiting for the completion timestamps, read after this map is complete.
    CheckSeries { series: MatchSeries },
    /// Waiting for the series' completion to be stored.
    CompleteSeries { series: MatchSeries },
    /// The embedded teardown is in progress, or has ended.
    Teardown(TeardownCoordinator),
    /// The map is archived and complete; the series goes on.
    Finished,
    Failed(Error),
}

/// Handles a map-end event: everything a round-end does, then archives the
/// recording, marks the match complete, and, when no map of the series is
/// left unfinished, marks the series complete and tears the server down.
#[derive(Debug)]
pub struct MapEnd {
    pub round: RoundEnd,
    pub phase: MapEndPhase,
}

pub open spec fn spec_map_end_start(event: DatHostMatch) -> (MapEnd, Request) {
    let (round, req) = spec_round_end_start(event);
    (MapEnd { round, phase: MapEndPhase::Scores }, req)
}

pub open spec fn spec_map_end_step(s: MapEnd, resp: Response, post: MapEnd, next: Next) -> bool {
    let round = s.round;
    let event = round.event;
    let is = |phase: MapEndPhase, n: Next| post == MapEnd { round, phase } && next == n;
    let fail = |e: Error| post == MapEnd { round, phase: MapEndPhase::Failed(e) } && next
        == Next::Failed(e);
    match s.phase {
        MapEndPhase::Scores => {
            let (r, n) = spec_round_end_step(round, resp);
            match n {
                Next::Call(req) => post == MapEnd { round: r, phase: MapEndPhase::Scores } && next
                    == Next::Call(req),
                Next::Finished => match r.phase {
                    RoundEndPhase::Finished { series, match_id } => post == MapEnd {
                        round: r,
                        phase: MapEndPhase::CountBefore { series, match_id },
                    } && next == Next::Call(
                        Request::ListCompletions { series: MatchSeriesId(series.id) },
                    ),
                    _ => post == MapEnd { round: r, phase: MapEndPhase::Failed(Error::StoreError) }
                        && next == Next::Failed(Error::StoreError),
                },
                Next::Failed(e) => post == MapEnd { round: r, phase: MapEndPhase::Failed(e) }
                    && next == Next::Failed(e),
            }
        },
        MapEndPhase::CountBefore { series, match_id } => match resp {
            Response::Completions(completed_at) => match spec_map_end_key(
                event,
                series,
                completed_at@,
            ) {
                Ok(k) => post.round == round && (post.phase matches MapEndPhase::AwaitRecording {
                    series: s2,
                    match_id: m2,
                    key,
                } && s2 == series && m2 == match_id && key@ == k) && next == Next::Call(
                    Request::WaitForRecording,
                ),
                Err(e) => fail(e),
            },
            _ => fail(Error::StoreError),
        },
        MapEndPhase::AwaitRecording { series, match_id, key } => match resp {
            Response::Done => post == MapEnd {
                round,
                phase: MapEndPhase::FetchRecording { series, match_id, key },
            } && (next matches Next::Call(Request::GetFile { server, path }) && server
                == event.server_id && path@ == spec_demo_filename(event.id@)),
            _ => fail(Error::UpstreamHostError),
        },
        MapEndPhase::FetchRecording { series, match_id, key } => match resp {
            Response::File(content) => is(
                MapEndPhase::StoreRecording { series, match_id },
                Next::Call(Request::PutObject { key, content }),
            ),
            _ => fail(Error::UpstreamHostError),
        },
        MapEndPhase::StoreRecording { series, match_id } => match resp {
            Response::Stored(status) if status == ARCHIVE_STORED => is(
                MapEndPhase::CompleteMatch { series, match_id },
                Next::Call(Request::CompleteMatch { match_id }),
            ),
            _ => fail(Error::ArchiveUploadFailed),
        },
        MapEndPhase::CompleteMatch { series, match_id } => match resp {
            Response::Done => is(
                MapEndPhase::CheckSeries { series },
                Next::Call(Request::ListCompletions { series: MatchSeriesId(series.id) }),
            ),
            _ => fail(Error::StoreError),
        },
        MapEndPhase::CheckSeries { series } => match resp {
            Response::Completions(completed_at) => if all_completed(completed_at@) {
                is(
                    MapEndPhase::CompleteSeries { series },
                    Next::Call(Request::CompleteSeries { series: MatchSeriesId(series.id) }),
                )
            } else {
                is(MapEndPhase::Finished, Next::Finished)
            },
            _ => fail(Error::StoreError),
        },
        MapEndPhase::CompleteSeries { series } => match resp {
            Response::Done => {
                let (t, req) = spec_teardown_start(event.server_id);
                is(MapEndPhase::Teardown(t), Next::Call(req))
            },
            _ => fail(Error::StoreError),
        },
        MapEndPhase::Teardown(t) => {
            let (t2, n) = spec_teardown_step(t, resp);
            is(MapEndPhase::Teardown(t2), n)
        },
        MapEndPhase::Finished => is(MapEndPhase::Finished, Next::Finished),
        MapEndPhase::Failed(e) => fail(e),
    }
}

impl MapEnd {
    /// Begins handling the event with its round-end part.
    pub fn start(event: DatHostMatch) -> (r: (MapEnd, Request))
        ensures
            r == spec_map_end_start(event),
    {
        let (round, req) = RoundEnd::start(event);
        (MapEnd { round, phase: MapEndPhase::Scores }, req)
    }

    /// Takes the outcome of the pending call and names the next one, or
    /// reports completion or the error that ends the handler.
    pub fn step(self, resp: Response) -> (r: (MapEnd, Next))
        ensures
            spec_map_end_step(self, resp, r.0, r.1),
    {
        let MapEnd { round, phase } = self;
        match phase {
            MapEndPhase::Scores => {
                let (r, n) = round.step(resp);
                match n {
                    Next::Call(req) => (MapEnd { round: r, phase: MapEndPhase::Scores }, Next::Call(req)),
                    Next::Finished => {
                        let found = match &r.phase {
                            RoundEndPhase::Finished { series, match_id } => Some(
                                (copy_series(series), *match_id),
                            ),
                            _ => None,
                        };
                        match found {
                            Some((series, match_id)) => {
                                let req = Request::ListCompletions {
                                    series: MatchSeriesId(series.id),
                                };
                                (
                                    MapEnd {
                                        round: r,
                                        phase: MapEndPhase::CountBefore { series, match_id },
                                    },
                                    Next::Call(req),
                                )
                            },
                            None => (
                                MapEnd { round: r, phase: MapEndPhase::Failed(Error::StoreError) },
                                Next::Failed(Error::StoreError),
                            ),
                        }
                    },
                    Next::Failed(e) => (
                        MapEnd { round: r, phase: MapEndPhase::Failed(e) },
                        Next::Failed(e),
                    ),
                }
            },
            MapEndPhase::CountBefore { series, match_id } => match resp {
                Response::Completions(completed_at) => match map_end_key(
                    &round.event,
                    &series,
                    &completed_at,
                ) {
                    Ok(key) => (
                        MapEnd { round, phase: MapEndPhase::AwaitRecording { series, match_id, key } },
                        Next::Call(Request::WaitForRecording),
                    ),
                    Err(e) => (MapEnd { round, phase: MapEndPhase::Failed(e) }, Next::Failed(e)),
                },
                _ => (
                    MapEnd { round, phase: MapEndPhase::Failed(Error::StoreError) },
                    Next::Failed(Error::StoreError),
                ),
            },
            MapEndPhase::AwaitRecording { series, match_id, key } => match resp {
                Response::Done => {
                    let server = copy_server(&round.event.server_id);
                    let path = demo_filename(round.event.id.as_str());
                    (
                        MapEnd { round, phase: MapEndPhase::FetchRecording { series, match_id, key } },
                        Next::Call(Request::GetFile { server, path }),
                    )
                },
                _ => (
                    MapEnd { round, phase: MapEndPhase::Failed(Error::UpstreamHostError) },
                    Next::Failed(Error::UpstreamHostError),
                ),
            },
            MapEndPhase::FetchRecording { series, match_id, key } => match resp {
                Response::File(content) => (
                    MapEnd { round, phase: MapEndPhase::StoreRecording { series, match_id } },
                    Next::Call(Request::PutObject { key, content }),
                ),
                _ => (
                    MapEnd { round, phase: MapEndPhase::Failed(Error::UpstreamHostError) },
                    Next::Failed(Error::UpstreamHostError),
                ),
            },
            MapEndPhase::StoreRecording { series, match_id } => match resp {
                Response::Stored(status) if status == ARCHIVE_STORED => (
                    MapEnd { round, phase: MapEndPhase::CompleteMatch { series, match_id } },
                    Next::Call(Request::CompleteMatch { match_id }),
                ),
                _ => (
                    MapEnd { round, phase: MapEndPhase::Failed(Error::ArchiveUploadFailed) },
                    Next::Failed(Error::ArchiveUploadFailed),
                ),
            },
            MapEndPhase::CompleteMatch { series, match_id } => match resp {
                Response::Done => {
                    let req = Request::ListCompletions { series: MatchSeriesId(series.id) };
                    (MapEnd { round, phase: MapEndPhase::CheckSeries { series } }, Next::Call(req))
                },
                _ => (
                    MapEnd { round, phase: MapEndPhase::Failed(Error::StoreError) },
                    Next::Failed(Error::StoreError),
                ),
            },
            MapEndPhase::CheckSeries { series } => match resp {
                Response::Completions(completed_at) => {
                    if SeriesProgressTracker::is_series_complete(&completed_at) {
                        let req = Request::CompleteSeries { series: MatchSeriesId(series.id) };
                        (
                            MapEnd { round, phase: MapEndPhase::CompleteSeries { series } },
                            Next::Call(req),
                        )
                    } else {
                        (MapEnd { round, phase: MapEndPhase::Finished }, Next::Finished)
                    }
                },
                _ => (
                    MapEnd { round, phase: MapEndPhase::Failed(Error::StoreError) },
                    Next::Failed(Error::StoreError),
                ),
            },
            MapEndPhase::CompleteSeries { series } => match resp {
                Response::Done => {
                    let (t, req) = TeardownCoordinator::start(copy_server(&round.event.server_id));
                    (MapEnd { round, phase: MapEndPhase::Teardown(t) }, Next::Call(req))
                },
                _ => (
                    MapEnd { round, phase: MapEndPhase::Failed(Error::StoreError) },
                    Next::Failed(Error::StoreError),
                ),
            },
            MapEndPhase::Teardown(t) => {
                let (t2, n) = t.step(resp);
                (MapEnd { round, phase: MapEndPhase::Teardown(t2) }, n)
            },
            MapEndPhase::Finished => (MapEnd { round, phase: MapEndPhase::Finished }, Next::Finished),
            MapEndPhase::Failed(e) => (MapEnd { round, phase: MapEndPhase::Failed(e) }, Next::Failed(e)),
        }
    }
}

/// The first snapshot at or after `from` that was played.
pub open spec fn spec_first_played(maps: Seq<DatHostMatch>, from: int) -> Option<int>
    decreases maps.len() - from,
{
    if from < 0 || from >= maps.len() {
        None
    } else if maps[from].spec_played() {
        Some(from)
    } else {
        spec_first_played(maps, from + 1)
    }
}

/// The number of played snapshots in a list.
pub open spec fn spec_count_played(maps: Seq<DatHostMatch>) -> nat
    decreases maps.len(),
{
    if maps.len() == 0 {
        0
    } else {
        spec_count_played(maps.drop_last()) + if maps.last().spec_played() {
            1nat
        } else {
            0nat
        }
    }
}

proof fn lemma_first_played_bounds(maps: Seq<DatHostMatch>, from: int)
    ensures
        spec_first_played(maps, from) matches Some(j) ==> from <= j < maps.len()
            && maps[j].spec_played(),
    decreases maps.len() - from,
{
    if 0 <= from < maps.len() && !maps[from].spec_played() {
        lemma_first_played_bounds(maps, from + 1);
    }
}

fn first_played(maps: &Vec<DatHostMatch>, from: usize) -> (r: Option<usize>)
    ensures
        match spec_first_played(maps@, from as int) {
            Some(j) => r == Some(j as usize),
            None => r is None,
        },
        r matches Some(j) ==> from <= j < maps.len(),
{
    proof {
        lemma_first_played_bounds(maps@, from as int);
    }
    let mut i = from;
    while i < maps.len()
        invariant
            from <= i,
            spec_first_played(maps@, from as int) == spec_first_played(maps@, i as int),
        decreases maps.len() - i,
    {
        if maps[i].played() {
            return Some(i);
        }
        i = i + 1;
    }
    None
}

proof fn lemma_count_played_bound(maps: Seq<DatHostMatch>)
    ensures
        spec_count_played(maps) <= maps.len(),
    decreases maps.len(),
{
    if maps.len() > 0 {
        lemma_count_played_bound(maps.drop_last());
    }
}

fn count_played(maps: &Vec<DatHostMatch>, upto: usize) -> (r: u64)
    requires
        upto <= maps.len(),
    ensures
        r == spec_count_played(maps@.take(upto as int)),
{
    let mut n: u64 = 0;
    let mut i: usize = 0;
    while i < upto
        invariant
            upto <= maps.len(),
            0 <= i <= upto,
            n == spec_count_played(maps@.take(i as int)),
        decreases upto - i,
    {
        proof {
            assert(maps@.take(i as int + 1).drop_last() =~= maps@.take(i as int));
            lemma_count_played_bound(maps@.take(i as int));
        }
        if maps[i].played() {
            n = n + 1;
        }
        i = i + 1;
    }
    n
}

/// Where a series-end session stands.
#[derive(Debug)]
pub enum SeriesEndPhase {
    /// Waiting for the series bound to the first snapshot's server.
    FindSeries,
    /// Waiting for the series' completion to be stored.
    CompleteSeries { series: MatchSeries },
    /// Waiting for the recording pipeline.
    AwaitRecordings { series: MatchSeries },
    /// Waiting for the match of the snapshot at `index`.
    FindMatch { series: MatchSeries, index: usize },
    /// Waiting for that match's completion to be stored.
    CompleteMatch { series: MatchSeries, index: usize },
    /// Waiting for that map's recording.
    FetchRecording { series: MatchSeries, index: usize },
    /// Waiting for the archive to store it.
    StoreRecording { series: MatchSeries, index: usize },
    /// The embedded teardown is in progress, or has ended.
    Teardown(TeardownCoordinator),
    Failed(Error),
}

/// Handles a series-end event: marks the series complete first, then, for
/// each played snapshot in order, completes its match and archives its
/// recording under the snapshot's position among the played ones; finally
/// tears the server down, once.
#[derive(Debug)]
pub struct SeriesEnd {
    pub event: DatHostMatchSeries,
    pub phase: SeriesEndPhase,
}

pub open spec fn spec_series_end_start(event: DatHostMatchSeries) -> (SeriesEnd, Next) {
    if event.matches@.len() == 0 {
        (
            SeriesEnd { event, phase: SeriesEndPhase::Failed(Error::InvalidEvent) },
            Next::Failed(Error::InvalidEvent),
        )
    } else {
        (
            SeriesEnd { event, phase: SeriesEndPhase::FindSeries },
            Next::Call(Request::FindSeries { server: event.matches@[0].server_id }),
        )
    }
}

/// Moves on to the first played snapshot at or after `from`, or, when none
/// is left, to the teardown of the first snapshot's server.
pub open spec fn spec_visit(event: DatHostMatchSeries, series: MatchSeries, from: int) -> (
    SeriesEndPhase,
    Next,
) {
    let maps = event.matches@;
    match spec_first_played(maps, from) {
        Some(j) => match maps[j].map {
            Some(map) => (
                SeriesEndPhase::FindMatch { series, index: j as usize },
                Next::Call(find_match_request(series, map)),
            ),
            None => (SeriesEndPhase::Failed(Error::InvalidEvent), Next::Failed(Error::InvalidEvent)),
        },
        None => if maps.len() == 0 {
            (SeriesEndPhase::Failed(Error::InvalidEvent), Next::Failed(Error::InvalidEvent))
        } else {
            let (t, req) = spec_teardown_start(maps[0].server_id);
            (SeriesEndPhase::Teardown(t), Next::Call(req))
        },
    }
}

fn visit(event: &DatHostMatchSeries, series: MatchSeries, from: usize) -> (r: (
    SeriesEndPhase,
    Next,
))
    ensures
        r == spec_visit(*event, series, from as int),
{
    proof {
        lemma_first_played_bounds(event.matches@, from as int);
    }
    match first_played(&event.matches, from) {
        Some(j) => match &event.matches[j].map {
            Some(map) => {
                let req = Request::FindMatch {
                    series: MatchSeriesId(series.id),
                    map: copy_string(map),
                };
                (SeriesEndPhase::FindMatch { series, index: j }, Next::Call(req))
            },
            None => (SeriesEndPhase::Failed(Error::InvalidEvent), Next::Failed(Error::InvalidEvent)),
        },
        None => if event.matches.len() == 0 {
            (SeriesEndPhase::Failed(Error::InvalidEvent), Next::Failed(Error::InvalidEvent))
        } else {
            let (t, req) = TeardownCoordinator::start(copy_server(&event.matches[0].server_id));
            (SeriesEndPhase::Teardown(t), Next::Call(req))
        },
    }
}

pub open spec fn spec_series_end_step(
    s: SeriesEnd,
    resp: Response,
    post: SeriesEnd,
    next: Next,
) -> bool {
    let event = s.event;
    let maps = event.matches@;
    let is = |phase: SeriesEndPhase, n: Next| post == SeriesEnd { event, phase } && next == n;
    let fail = |e: Error| post == SeriesEnd { event, phase: SeriesEndPhase::Failed(e) } && next
        == Next::Failed(e);
    match s.phase {
        SeriesEndPhase::FindSeries => match resp {
            Response::Series(Some(series)) => is(
                SeriesEndPhase::CompleteSeries { series },
                Next::Call(Request::CompleteSeries { series: MatchSeriesId(series.id) }),
            ),
            Response::Series(None) => fail(Error::UnknownServer),
            _ => fail(Error::StoreError),
        },
        SeriesEndPhase::CompleteSeries { series } => match resp {
            Response::Done => is(
                SeriesEndPhase::AwaitRecordings { series },
                Next::Call(Request::WaitForRecording),
            ),
            _ => fail(Error::StoreError),
        },
        SeriesEndPhase::AwaitRecordings { series } => match resp {
            Response::Done => {
                let (phase, n) = spec_visit(event, series, 0);
                is(phase, n)
            },
            _ => fail(Error::UpstreamHostError),
        },
        SeriesEndPhase::FindMatch { series, index } => match resp {
            Response::Match(Some(match_id)) => is(
                SeriesEndPhase::CompleteMatch { series, index },
                Next::Call(Request::CompleteMatch { match_id }),
            ),
            Response::Match(None) => fail(Error::UnknownMap),
            _ => fail(Error::StoreError),
        },
        SeriesEndPhase::CompleteMatch { series, index } => match resp {
            Response::Done => if index < maps.len() {
                post == SeriesEnd { event, phase: SeriesEndPhase::FetchRecording { series, index } }
                    && (next matches Next::Call(Request::GetFile { server, path }) && server
                    == maps[index as int].server_id && path@ == spec_demo_filename(
                    maps[index as int].id@,
                ))
            } else {
                fail(Error::InvalidEvent)
            },
            _ => fail(Error::StoreError),
        },
        SeriesEndPhase::FetchRecording { series, index } => match resp {
            Response::File(bytes) => if index < maps.len() {
                match spec_external_id(maps[index as int].match_series_id, series) {
                    Some(reference) => post == SeriesEnd {
                        event,
                        phase: SeriesEndPhase::StoreRecording { series, index },
                    } && (next matches Next::Call(Request::PutObject { key, content }) && content
                        == bytes && key@ == spec_series_archive_key(
                        reference@,
                        spec_count_played(maps.take(index + 1)),
                    )),
                    None => fail(Error::InvalidEvent),
                }
            } else {
                fail(Error::InvalidEvent)
            },
            _ => fail(Error::UpstreamHostError),
        },
        SeriesEndPhase::StoreRecording { series, index } => match resp {
            Response::Stored(status) if status == ARCHIVE_STORED => {
                let from = if index < maps.len() {
                    index + 1
                } else {
                    maps.len() as int
                };
                let (phase, n) = spec_visit(event, series, from);
                is(phase, n)
            },
            _ => fail(Error::ArchiveUploadFailed),
        },
        SeriesEndPhase::Teardown(t) => {
            let (t2, n) = spec_teardown_step(t, resp);
            is(SeriesEndPhase::Teardown(t2), n)
        },
        SeriesEndPhase::Failed(e) => fail(e),
    }
}

impl SeriesEnd {
    /// Begins handling the event by looking up the series bound to the first
    /// snapshot's server; an event without snapshots is invalid.
    pub fn start(event: DatHostMatchSeries) -> (r: (SeriesEnd, Next))
        ensures
            r == spec_series_end_start(event),
    {
        if event.matches.len() == 0 {
            return (
                SeriesEnd { event, phase: SeriesEndPhase::Failed(Error::InvalidEvent) },
                Next::Failed(Error::InvalidEvent),
            );
        }
        let server = copy_server(&event.matches[0].server_id);
        (SeriesEnd { event, phase: SeriesEndPhase::FindSeries }, Next::Call(Request::FindSeries { server }))
    }

    /// Takes the outcome of the pending call and names the next one, or
    /// reports completion or the error that ends the handler.
    pub fn step(self, resp: Response) -> (r: (SeriesEnd, Next))
        ensures
            spec_series_end_step(self, resp, r.0, r.1),
    {
        let SeriesEnd { event, phase } = self;
        match phase {
            SeriesEndPhase::FindSeries => match resp {
                Response::Series(Some(series)) => {
                    let req = Request::CompleteSeries { series: MatchSeriesId(series.id) };
                    (SeriesEnd { event, phase: SeriesEndPhase::CompleteSeries { series } }, Next::Call(req))
                },
                Response::Series(None) => (
                    SeriesEnd { event, phase: SeriesEndPhase::Failed(Error::UnknownServer) },
                    Next::Failed(Error::UnknownServer),
                ),
                _ => (
                    SeriesEnd { event, phase: SeriesEndPhase::Failed(Error::StoreError) },
                    Next::Failed(Error::StoreError),
                ),
            },
            SeriesEndPhase::CompleteSeries { series } => match resp {
                Response::Done => (
                    SeriesEnd { event, phase: SeriesEndPhase::AwaitRecordings { series } },
                    Next::Call(Request::WaitForRecording),
                ),
                _ => (
                    SeriesEnd { event, phase: SeriesEndPhase::Failed(Error::StoreError) },
                    Next::Failed(Error::StoreError),
                ),
            },
            SeriesEndPhase::AwaitRecordings { series } => match resp {
                Response::Done => {
                    let (phase, n) = visit(&event, series, 0);
                    (SeriesEnd { event, phase }, n)
                },
                _ => (
                    SeriesEnd { event, phase: SeriesEndPhase::Failed(Error::UpstreamHostError) },
                    Next::Failed(Error::UpstreamHostError),
                ),
            },
            SeriesEndPhase::FindMatch { series, index } => match resp {
                Response::Match(Some(match_id)) => (
                    SeriesEnd { event, phase: SeriesEndPhase::CompleteMatch { series, index } },
                    Next::Call(Request::CompleteMatch { match_id }),
                ),
                Response::Match(None) => (
                    SeriesEnd { event, phase: SeriesEndPhase::Failed(Error::UnknownMap) },
                    Next::Failed(Error::UnknownMap),
                ),
                _ => (
                    SeriesEnd { event, phase: SeriesEndPhase::Failed(Error::StoreError) },
                    Next::Failed(Error::StoreError),
                ),
            },
            SeriesEndPhase::CompleteMatch { series, index } => match resp {
                Response::Done => if index < event.matches.len() {
                    let server = copy_server(&event.matches[index].server_id);
                    let path = demo_filename(event.matches[index].id.as_str());
                    (
                        SeriesEnd { event, phase: SeriesEndPhase::FetchRecording { series, index } },
                        Next::Call(Request::GetFile { server, path }),
                    )
                } else {
                    (
                        SeriesEnd { event, phase: SeriesEndPhase::Failed(Error::InvalidEvent) },
                        Next::Failed(Error::InvalidEvent),
                    )
                },
                _ => (
                    SeriesEnd { event, phase: SeriesEndPhase::Failed(Error::StoreError) },
                    Next::Failed(Error::StoreError),
                ),
            },
            SeriesEndPhase::FetchRecording { series, index } => match resp {
                Response::File(bytes) => if index < event.matches.len() {
                    match external_id(&event.matches[index].match_series_id, &series) {
                        Some(reference) => {
                            let n = count_played(&event.matches, index + 1);
                            let key = series_archive_key(reference.as_str(), n);
                            (
                                SeriesEnd {
                                    event,
                                    phase: SeriesEndPhase::StoreRecording { series, index },
                                },
                                Next::Call(Request::PutObject { key, content: bytes }),
                            )
                        },
                        None => (
                            SeriesEnd { event, phase: SeriesEndPhase::Failed(Error::InvalidEvent) },
                            Next::Failed(Error::InvalidEvent),
                        ),
                    }
                } else {
                    (
                        SeriesEnd { event, phase: SeriesEndPhase::Failed(Error::InvalidEvent) },
                        Next::Failed(Error::InvalidEvent),
                    )
                },
                _ => (
                    SeriesEnd { event, phase: SeriesEndPhase::Failed(Error::UpstreamHostError) },
                    Next::Failed(Error::UpstreamHostError),
                ),
            },
            SeriesEndPhase::StoreRecording { series, index } => match resp {
                Response::Stored(status) if status == ARCHIVE_STORED => {
                    let from = if index < event.matches.len() {
                        index + 1
                    } else {
                        event.matches.len()
                    };
                    let (phase, n) = visit(&event, series, from);
                    (SeriesEnd { event, phase }, n)
                },
                _ => (
                    SeriesEnd { event, phase: SeriesEndPhase::Failed(Error::ArchiveUploadFailed) },
                    Next::Failed(Error::ArchiveUploadFailed),
                ),
            },
            SeriesEndPhase::Teardown(t) => {
                let (t2, n) = t.step(resp);
                (SeriesEnd { event, phase: SeriesEndPhase::Teardown(t2) }, n)
            },
            SeriesEndPhase::Failed(e) => (
                SeriesEnd { event, phase: SeriesEndPhase::Failed(e) },
                Next::Failed(e),
            ),
        }
    }
}

/// A map-end handler asks to mark its match complete only when the archive
/// has just reported the recording stored.
pub proof fn lemma_map_end_archives_before_completing(
    s: MapEnd,
    resp: Response,
    post: MapEnd,
    next: Next,
)
    requires
        spec_map_end_step(s, resp, post, next),
        next matches Next::Call(Request::CompleteMatch { .. }),
    ensures
        s.phase is StoreRecording,
        resp == Response::Stored(ARCHIVE_STORED),
{
}

/// A map-end handler asks to mark the series complete only when every match
/// of it is complete, as read after its own match was marked complete; and
/// it begins the teardown only once the series completion is stored.
pub proof fn lemma_map_end_teardown_after_series(s: MapEnd, resp: Response, post: MapEnd, next: Next)
    requires
        spec_map_end_step(s, resp, post, next),
    ensures
        next matches Next::Call(Request::CompleteSeries { .. }) ==> s.phase is CheckSeries && (
        resp matches Response::Completions(v) && all_completed(v@)),
        post.phase is Teardown && !(s.phase is Teardown) ==> s.phase is CompleteSeries && resp
            is Done,
{
}

/// The phases a series-end handler reaches once the series completion is stored.
pub open spec fn past_series_completion(phase: SeriesEndPhase) -> bool {
    match phase {
        SeriesEndPhase::FindSeries | SeriesEndPhase::CompleteSeries { .. }
        | SeriesEndPhase::Failed(_) => false,
        _ => true,
    }
}

/// A series-end handler marks the series complete before any per-map work:
/// it gets past the series completion only when the store acknowledges it,
/// and it resolves, completes and archives matches only past that point.
pub proof fn lemma_series_end_completes_series_first(
    s: SeriesEnd,
    resp: Response,
    post: SeriesEnd,
    next: Next,
)
    requires
        spec_series_end_step(s, resp, post, next),
    ensures
        past_series_completion(post.phase) ==> past_series_completion(s.phase) || (
        s.phase is CompleteSeries && resp is Done),
        (next matches Next::Call(Request::FindMatch { .. }) || next matches Next::Call(
            Request::CompleteMatch { .. },
        ) || next matches Next::Call(Request::GetFile { .. }) || next matches Next::Call(
            Request::PutObject { .. },
        )) ==> past_series_completion(post.phase),
{
}

/// A series-end handler begins the teardown once, when no played snapshot
/// is left to process, and stays in it from then on.
pub proof fn lemma_series_end_tears_down_once(
    s: SeriesEnd,
    resp: Response,
    post: SeriesEnd,
    next: Next,
)
    requires
        spec_series_end_step(s, resp, post, next),
    ensures
        post.phase is Teardown && !(s.phase is Teardown) ==> match s.phase {
            SeriesEndPhase::AwaitRecordings { .. } => spec_first_played(s.event.matches@, 0) is None,
            SeriesEndPhase::StoreRecording { index, .. } => spec_first_played(
                s.event.matches@,
                index + 1,
            ) is None,
            _ => false,
        },
        s.phase is Teardown ==> post.phase is Teardown,
{
}

proof fn lemma_count_played_prefix_monotone(maps: Seq<DatHostMatch>, k: int, l: int)
    requires
        0 <= k <= l <= maps.len(),
    ensures
        spec_count_played(maps.take(k)) <= spec_count_played(maps.take(l)),
    decreases l - k,
{
    if k < l {
        lemma_count_played_prefix_monotone(maps, k, l - 1);
        assert(maps.take(l).drop_last() =~= maps.take(l - 1));
    }
}

/// In a batch, the played snapshots are archived under indices that start
/// at 1 and grow by one from each played snapshot to the next, so no two
/// recordings of a series share a key.
pub proof fn lemma_batch_indices_sequential(maps: Seq<DatHostMatch>, i: int, j: int)
    requires
        0 <= i < j < maps.len(),
        maps[i].spec_played(),
        maps[j].spec_played(),
    ensures
        1 <= spec_count_played(maps.take(i + 1)) < spec_count_played(maps.take(j + 1)),
        spec_first_played(maps, 0) == Some(i) ==> spec_count_played(maps.take(i + 1)) == 1,
        spec_first_played(maps, i + 1) == Some(j) ==> spec_count_played(maps.take(j + 1))
            == spec_count_played(maps.take(i + 1)) + 1,
{
    assert(maps.take(i + 1).drop_last() =~= maps.take(i));
    assert(maps.take(j + 1).drop_last() =~= maps.take(j));
    lemma_count_played_prefix_monotone(maps, i + 1, j);
    if spec_first_played(maps, 0) == Some(i) {
        lemma_none_played_between(maps, 0, i);
    }
    if spec_first_played(maps, i + 1) == Some(j) {
        lemma_none_played_between(maps, i + 1, j);
    }
}

proof fn lemma_none_played_between(maps: Seq<DatHostMatch>, from: int, j: int)
    requires
        0 <= from <= j < maps.len(),
        spec_first_played(maps, from) == Some(j),
    ensures
        spec_count_played(maps.take(j)) == spec_count_played(maps.take(from)),
    decreases j - from,
{
    if from < j {
        assert(maps.take(from + 1).drop_last() =~= maps.take(from));
        lemma_none_played_between(maps, from + 1, j);
    }
}

} // verus!
