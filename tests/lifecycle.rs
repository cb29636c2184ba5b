use matchbot_api::error::Error;
use matchbot_api::lifecycle::{MapEnd, RoundEnd, SeriesEnd};
use matchbot_api::models::{
    CsgoSettings, DatHostMatch, DatHostMatchSeries, DatHostServer, MatchId, MatchSeries,
    QueryLoginTokenResponse, SeriesType, ServerId, TeamStats,
};
use matchbot_api::protocol::{Next, Request, Response};
use matchbot_api::teardown::{TeardownCoordinator, TeardownState, TeardownStep};

const TEAM_ONE_PLAYER: &str = "STEAM_0:1:100";
const TEAM_TWO_PLAYER: &str = "STEAM_0:0:400";
const TEAM_ONE_ACCOUNT: i64 = 76561197960265929;

/// An in-memory store, host, archive and identity provider.
struct World {
    series: MatchSeries,
    server: String,
    host_map: String,
    matches: Vec<(String, i32, Option<i64>)>,
    members: Vec<(i32, i64)>,
    scores: Vec<(i32, i32, i32)>,
    archive: Vec<(String, Vec<u8>)>,
    archive_status: u16,
    log: Vec<String>,
}

impl World {
    fn new(series_type: SeriesType, maps: &[&str]) -> World {
        World {
            series: MatchSeries {
                id: 7,
                team_one: 1,
                team_two: 2,
                series_type,
                dathost_match: Some("ext".to_string()),
                created_at: 0,
                completed_at: None,
            },
            server: "srv".to_string(),
            host_map: maps[0].to_string(),
            matches: maps.iter().enumerate().map(|(i, m)| (m.to_string(), 100 + i as i32, None)).collect(),
            members: vec![(1, TEAM_ONE_ACCOUNT)],
            scores: Vec::new(),
            archive: Vec::new(),
            archive_status: 200,
            log: Vec::new(),
        }
    }

    fn answer(&mut self, req: Request) -> Response {
        match req {
            Request::FindSeries { server } => {
                self.log.push("find-series".to_string());
                if server.0 == self.server {
                    Response::Series(Some(self.series.clone()))
                } else {
                    Response::Series(None)
                }
            }
            Request::GetServerMap { .. } => {
                self.log.push("get-map".to_string());
                Response::MapName(self.host_map.clone())
            }
            Request::FindMatch { series, map } => {
                self.log.push(format!("find-match {map}"));
                assert_eq!(series.0, self.series.id);
                Response::Match(self.matches.iter().find(|m| m.0 == map).map(|m| MatchId(m.1)))
            }
            Request::IsPlayerOnTeam { team, account, .. } => {
                self.log.push("membership".to_string());
                Response::Membership(self.members.contains(&(team.0, account)))
            }
            Request::UpdateScores { match_id, team_one_score, team_two_score } => {
                self.log.push(format!("scores {team_one_score}-{team_two_score}"));
                self.scores.retain(|s| s.0 != match_id.0);
                self.scores.push((match_id.0, team_one_score, team_two_score));
                Response::Done
            }
            Request::ListCompletions { .. } => {
                self.log.push("completions".to_string());
                Response::Completions(self.matches.iter().map(|m| m.2).collect())
            }
            Request::CompleteMatch { match_id } => {
                self.log.push(format!("complete-match {}", match_id.0));
                for m in self.matches.iter_mut() {
                    if m.1 == match_id.0 {
                        m.2 = Some(1);
                    }
                }
                Response::Done
            }
            Request::CompleteSeries { .. } => {
                self.log.push("complete-series".to_string());
                self.series.completed_at = Some(1);
                Response::Done
            }
            Request::WaitForRecording => {
                self.log.push("wait".to_string());
                Response::Done
            }
            Request::GetFile { path, .. } => {
                self.log.push(format!("get-file {path}"));
                Response::File(path.into_bytes())
            }
            Request::PutObject { key, content } => {
                self.log.push(format!("put {key}"));
                self.archive.push((key, content));
                Response::Stored(self.archive_status)
            }
            Request::GetServerInfo { .. } => {
                self.log.push("server-info".to_string());
                Response::ServerInfo(DatHostServer {
                    csgo_settings: CsgoSettings {
                        mapgroup_start_map: self.host_map.clone(),
                        gslt: "TOKEN".to_string(),
                    },
                })
            }
            Request::QueryLoginToken { gslt } => {
                self.log.push(format!("query-token {gslt}"));
                Response::LoginToken(QueryLoginTokenResponse {
                    steamid: "85568392920040000".to_string(),
                    is_banned: false,
                    expires: 0,
                })
            }
            Request::DeleteGslt { steamid } => {
                self.log.push(format!("delete-token {steamid}"));
                Response::Done
            }
            Request::StopServer { .. } => {
                self.log.push("stop".to_string());
                Response::Done
            }
            Request::DeleteServer { .. } => {
                self.log.push("delete".to_string());
                Response::Done
            }
        }
    }

    fn count(&self, prefix: &str) -> usize {
        self.log.iter().filter(|l| l.starts_with(prefix)).count()
    }

    fn position(&self, entry: &str) -> usize {
        self.log.iter().position(|l| l == entry).unwrap()
    }
}

fn event(map: Option<&str>, slot_one: &str, scores: Option<(u32, u32)>) -> DatHostMatch {
    DatHostMatch {
        id: "m1".to_string(),
        server_id: ServerId("srv".to_string()),
        match_series_id: Some("ext".to_string()),
        map: map.map(|m| m.to_string()),
        finished: true,
        team1_steam_ids: vec![slot_one.to_string()],
        team2_steam_ids: vec!["STEAM_0:0:999".to_string()],
        team1_stats: scores.map(|s| TeamStats { score: s.0 }),
        team2_stats: scores.map(|s| TeamStats { score: s.1 }),
    }
}

fn run_round_end(world: &mut World, e: DatHostMatch) -> Result<(), Error> {
    let (mut session, mut req) = RoundEnd::start(e);
    loop {
        let resp = world.answer(req);
        let (s, next) = session.step(resp);
        session = s;
        match next {
            Next::Call(r) => req = r,
            Next::Finished => return Ok(()),
            Next::Failed(e) => return Err(e),
        }
    }
}

fn run_map_end(world: &mut World, e: DatHostMatch) -> Result<(), Error> {
    let (mut session, mut req) = MapEnd::start(e);
    loop {
        let resp = world.answer(req);
        let (s, next) = session.step(resp);
        session = s;
        match next {
            Next::Call(r) => req = r,
            Next::Finished => return Ok(()),
            Next::Failed(e) => return Err(e),
        }
    }
}

fn run_series_end(world: &mut World, e: DatHostMatchSeries) -> Result<(), Error> {
    let (mut session, mut next) = SeriesEnd::start(e);
    loop {
        match next {
            Next::Call(req) => {
                let resp = world.answer(req);
                let (s, n) = session.step(resp);
                session = s;
                next = n;
            }
            Next::Finished => return Ok(()),
            Next::Failed(e) => return Err(e),
        }
    }
}

#[test]
fn round_end_writes_attributed_scores() {
    let mut world = World::new(SeriesType::Bo1, &["de_nuke"]);
    run_round_end(&mut world, event(Some("de_nuke"), TEAM_ONE_PLAYER, Some((16, 10)))).unwrap();
    assert_eq!(world.scores, vec![(100, 16, 10)]);
    assert_eq!(world.log, vec!["find-series", "find-match de_nuke", "membership", "scores 16-10"]);
}

#[test]
fn round_end_asks_host_for_missing_map() {
    let mut world = World::new(SeriesType::Bo1, &["de_nuke"]);
    run_round_end(&mut world, event(None, TEAM_TWO_PLAYER, Some((16, 10)))).unwrap();
    assert_eq!(world.scores, vec![(100, 10, 16)]);
    assert_eq!(world.log[1], "get-map");
    assert_eq!(world.count("complete"), 0);
    assert_eq!(world.count("put"), 0);
}

#[test]
fn round_end_replay_is_idempotent() {
    let mut world = World::new(SeriesType::Bo3, &["de_nuke", "de_inferno", "de_vertigo"]);
    let e = event(Some("de_inferno"), TEAM_TWO_PLAYER, Some((13, 9)));
    run_round_end(&mut world, e.clone()).unwrap();
    let first = world.scores.clone();
    run_round_end(&mut world, e).unwrap();
    assert_eq!(world.scores, first);
    assert_eq!(world.scores, vec![(101, 9, 13)]);
    assert_eq!(world.count("scores 9-13"), 2);
}

#[test]
fn round_end_unknown_server() {
    let mut world = World::new(SeriesType::Bo1, &["de_nuke"]);
    let mut e = event(Some("de_nuke"), TEAM_ONE_PLAYER, Some((1, 0)));
    e.server_id = ServerId("other".to_string());
    assert_eq!(run_round_end(&mut world, e), Err(Error::UnknownServer));
    assert!(world.scores.is_empty());
}

#[test]
fn round_end_unknown_map() {
    let mut world = World::new(SeriesType::Bo1, &["de_nuke"]);
    let e = event(Some("de_train"), TEAM_ONE_PLAYER, Some((1, 0)));
    assert_eq!(run_round_end(&mut world, e), Err(Error::UnknownMap));
}

#[test]
fn round_end_missing_score_is_invalid() {
    let mut world = World::new(SeriesType::Bo1, &["de_nuke"]);
    let e = event(Some("de_nuke"), TEAM_ONE_PLAYER, None);
    assert_eq!(run_round_end(&mut world, e), Err(Error::InvalidEvent));
    assert_eq!(world.count("membership"), 0);
}

#[test]
fn round_end_unresolvable_player() {
    let mut world = World::new(SeriesType::Bo1, &["de_nuke"]);
    let e = event(Some("de_nuke"), "BOT", Some((1, 0)));
    assert_eq!(run_round_end(&mut world, e), Err(Error::AttributionFailed));
    assert!(world.scores.is_empty());
}

#[test]
fn round_end_store_failure() {
    let (session, _) = RoundEnd::start(event(Some("de_nuke"), TEAM_ONE_PLAYER, Some((1, 0))));
    let (_, next) = session.step(Response::Failed);
    assert!(matches!(next, Next::Failed(Error::StoreError)));
}

#[test]
fn bo1_map_end_swaps_completes_and_tears_down_once() {
    let mut world = World::new(SeriesType::Bo1, &["de_nuke"]);
    run_map_end(&mut world, event(Some("de_nuke"), TEAM_TWO_PLAYER, Some((16, 10)))).unwrap();
    assert_eq!(world.scores, vec![(100, 10, 16)]);
    assert_eq!(world.matches[0].2, Some(1));
    assert_eq!(world.series.completed_at, Some(1));
    assert_eq!(world.archive.len(), 1);
    assert_eq!(world.archive[0].0, "m1.dem");
    assert_eq!(world.archive[0].1, b"m1.dem".to_vec());
    assert_eq!(world.count("server-info"), 1);
    assert_eq!(world.count("delete-token 85568392920040000"), 1);
    assert_eq!(world.count("stop"), 1);
    assert_eq!(world.count("delete"), 2);
    assert!(world.position("put m1.dem") < world.position("complete-match 100"));
    assert!(world.position("complete-series") < world.position("server-info"));
    assert_eq!(world.log.last().unwrap(), "delete");
}

#[test]
fn bo3_map_end_names_first_map_and_leaves_series_open() {
    let mut world = World::new(SeriesType::Bo3, &["de_nuke", "de_inferno", "de_vertigo"]);
    run_map_end(&mut world, event(Some("de_nuke"), TEAM_ONE_PLAYER, Some((16, 4)))).unwrap();
    assert_eq!(world.archive[0].0, "ext_1");
    assert_eq!(world.matches[0].2, Some(1));
    assert_eq!(world.series.completed_at, None);
    assert_eq!(world.count("server-info"), 0);
}

#[test]
fn bo3_map_end_last_map_completes_series() {
    let mut world = World::new(SeriesType::Bo3, &["de_nuke", "de_inferno", "de_vertigo"]);
    world.matches[0].2 = Some(1);
    world.matches[1].2 = Some(1);
    run_map_end(&mut world, event(Some("de_vertigo"), TEAM_ONE_PLAYER, Some((16, 4)))).unwrap();
    assert_eq!(world.archive[0].0, "ext_3");
    assert_eq!(world.series.completed_at, Some(1));
    assert_eq!(world.count("stop"), 1);
}

#[test]
fn map_end_archive_failure_leaves_match_open() {
    let mut world = World::new(SeriesType::Bo1, &["de_nuke"]);
    world.archive_status = 500;
    let r = run_map_end(&mut world, event(Some("de_nuke"), TEAM_ONE_PLAYER, Some((16, 10))));
    assert_eq!(r, Err(Error::ArchiveUploadFailed));
    assert_eq!(world.scores, vec![(100, 16, 10)]);
    assert_eq!(world.matches[0].2, None);
    assert_eq!(world.count("complete"), 0);
    assert_eq!(world.count("server-info"), 0);
}

#[test]
fn map_end_teardown_failure_names_step() {
    let mut world = World::new(SeriesType::Bo1, &["de_nuke"]);
    let (mut session, mut req) = MapEnd::start(event(Some("de_nuke"), TEAM_ONE_PLAYER, Some((2, 1))));
    let outcome = loop {
        let resp = match req {
            Request::StopServer { .. } => Response::Failed,
            other => world.answer(other),
        };
        let (s, next) = session.step(resp);
        session = s;
        match next {
            Next::Call(r) => req = r,
            other => break other,
        }
    };
    assert!(matches!(outcome, Next::Failed(Error::UpstreamHostError)));
    match session.phase {
        matchbot_api::lifecycle::MapEndPhase::Teardown(t) => {
            assert_eq!(t.state, TeardownState::Failed(TeardownStep::StopServer));
        }
        _ => panic!("teardown expected"),
    }
    assert_eq!(world.count("delete"), 1);
}

#[test]
fn series_end_skips_unplayed_map() {
    let mut world = World::new(SeriesType::Bo3, &["de_nuke", "de_inferno", "de_vertigo"]);
    let mut first = event(Some("de_nuke"), TEAM_ONE_PLAYER, Some((16, 3)));
    first.id = "a".to_string();
    let mut second = event(Some("de_inferno"), TEAM_ONE_PLAYER, None);
    second.id = "b".to_string();
    let mut third = event(Some("de_vertigo"), TEAM_ONE_PLAYER, Some((16, 8)));
    third.id = "c".to_string();
    let series = DatHostMatchSeries { matches: vec![first, second, third] };
    run_series_end(&mut world, series).unwrap();
    assert_eq!(world.count("complete-match"), 2);
    assert_eq!(world.matches[0].2, Some(1));
    assert_eq!(world.matches[1].2, None);
    assert_eq!(world.matches[2].2, Some(1));
    let keys: Vec<&str> = world.archive.iter().map(|a| a.0.as_str()).collect();
    assert_eq!(keys, vec!["ext_1.dem", "ext_2.dem"]);
    assert_eq!(world.archive[1].1, b"c.dem".to_vec());
    assert!(world.position("complete-series") < world.position("find-match de_nuke"));
    assert_eq!(world.count("server-info"), 1);
    assert_eq!(world.count("stop"), 1);
    assert!(world.position("put ext_2.dem") < world.position("server-info"));
}

#[test]
fn series_end_without_snapshots_is_invalid() {
    let (_, next) = SeriesEnd::start(DatHostMatchSeries { matches: Vec::new() });
    assert!(matches!(next, Next::Failed(Error::InvalidEvent)));
}

#[test]
fn series_end_archive_failure() {
    let mut world = World::new(SeriesType::Bo1, &["de_nuke"]);
    world.archive_status = 403;
    let series = DatHostMatchSeries { matches: vec![event(Some("de_nuke"), TEAM_ONE_PLAYER, Some((16, 3)))] };
    assert_eq!(run_series_end(&mut world, series), Err(Error::ArchiveUploadFailed));
    assert_eq!(world.series.completed_at, Some(1));
    assert_eq!(world.count("server-info"), 0);
}

#[test]
fn teardown_sequence_and_bad_account() {
    let (t, req) = TeardownCoordinator::start(ServerId("srv".to_string()));
    assert!(matches!(req, Request::GetServerInfo { .. }));
    let info = DatHostServer {
        csgo_settings: CsgoSettings { mapgroup_start_map: "de_nuke".to_string(), gslt: "G".to_string() },
    };
    let (t, next) = t.step(Response::ServerInfo(info));
    assert!(matches!(next, Next::Call(Request::QueryLoginToken { ref gslt }) if gslt == "G"));
    let bad = QueryLoginTokenResponse { steamid: "not-a-number".to_string(), is_banned: false, expires: 0 };
    let (t, next) = t.step(Response::LoginToken(bad));
    assert!(matches!(next, Next::Failed(Error::IdentityProviderError)));
    assert_eq!(t.state, TeardownState::Failed(TeardownStep::ResolveCredential));
}
