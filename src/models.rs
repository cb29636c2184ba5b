//! Identifiers, webhook bodies and persisted records.
use vstd::prelude::*;

verus! {

/// A persisted match (one map of a series).
#[derive(Clone, Copy, Debug, PartialEq, Eq, Structural)]
pub struct MatchId(pub i32);

/// A persisted series.
#[derive(Clone, Copy, Debug, PartialEq, Eq, Structural)]
pub struct MatchSeriesId(pub i32);

/// A persisted team.
#[derive(Clone, Copy, Debug, PartialEq, Eq, Structural)]
pub struct TeamId(pub i32);

/// The host's opaque identifier of a game server.
#[derive(Clone, Debug)]
pub struct ServerId(pub String);

/// The association of a platform account with its game identity.
#[derive(Clone, Copy, Debug, PartialEq, Eq, Structural)]
pub struct SteamUser {
    pub discord: i64,
    pub steam: i64,
}

/// Score of one in-game slot at the time of the event.
#[derive(Clone, Copy, Debug, PartialEq, Eq, Structural)]
pub struct TeamStats {
    pub score: u32,
}

/// A map-end or round-end notification from the game-server host.
///
/// Slot one is `team1_*`, slot two `team2_*`. Absent fields stay absent: a
/// missing map is resolved by asking the host, a missing score is never zero.
#[derive(Clone, Debug)]
pub struct DatHostMatch {
    pub id: String,
    pub server_id: ServerId,
    pub match_series_id: Option<String>,
    pub map: Option<String>,
    pub finished: bool,
    pub team1_steam_ids: Vec<String>,
    pub team2_steam_ids: Vec<String>,
    pub team1_stats: Option<TeamStats>,
    pub team2_stats: Option<TeamStats>,
}

impl DatHostMatch {
    /// A snapshot was played when it carries a slot-one score.
    pub open spec fn spec_played(self) -> bool {
        self.team1_stats is Some
    }

    pub fn played(&self) -> (r: bool)
        ensures
            r == self.spec_played(),
    {
        self.team1_stats.is_some()
    }
}

/// A series-end notification: one snapshot per map, in series order.
#[derive(Clone, Debug)]
pub struct DatHostMatchSeries {
    pub matches: Vec<DatHostMatch>,
}

/// What the host reports about a live server.
#[derive(Clone, Debug)]
pub struct DatHostServer {
    pub csgo_settings: CsgoSettings,
}

/// The part of a server's configuration the lifecycle reads.
#[derive(Clone, Debug)]
pub struct CsgoSettings {
    pub mapgroup_start_map: String,
    /// The game-server login credential embedded in the server.
    pub gslt: String,
}

/// Body of a credential revocation sent to the identity provider.
#[derive(Clone, Copy, Debug, PartialEq, Eq, Structural, Default)]
pub struct DeleteGsltRequest {
    pub steamid: u64,
}

/// Body of a credential lookup sent to the identity provider.
#[derive(Clone, Debug, Default)]
pub struct QueryLoginTokenRequest {
    pub login_token: String,
}

/// Envelope of the identity provider's answer to a credential lookup.
#[derive(Clone, Debug, Default)]
pub struct SteamApiRootResponse {
    pub response: QueryLoginTokenResponse,
}

/// The identity provider's answer to a credential lookup.
#[derive(Clone, Debug, Default)]
pub struct QueryLoginTokenResponse {
    /// The owning account, as decimal digits.
    pub steamid: String,
    pub is_banned: bool,
    pub expires: u64,
}

/// The format of a series.
#[derive(Clone, Copy, Debug, PartialEq, Eq, Structural)]
pub enum SeriesType {
    Bo1,
    Bo3,
    Bo5,
}

impl SeriesType {
    pub open spec fn spec_total_maps(self) -> u32 {
        match self {
            SeriesType::Bo1 => 1,
            SeriesType::Bo3 => 3,
            SeriesType::Bo5 => 5,
        }
    }

    /// The number of maps the format schedules.
    pub fn total_maps(&self) -> (r: u32)
        ensures
            r == self.spec_total_maps(),
    {
        match self {
            SeriesType::Bo1 => 1,
            SeriesType::Bo3 => 3,
            SeriesType::Bo5 => 5,
        }
    }

    pub open spec fn spec_from_db_name(s: Seq<char>) -> Option<SeriesType> {
        if s == "bo1"@ {
            Some(SeriesType::Bo1)
        } else if s == "bo3"@ {
            Some(SeriesType::Bo3)
        } else if s == "bo5"@ {
            Some(SeriesType::Bo5)
        } else {
            None
        }
    }

    /// Reads the store's lower-case name of a format.
    pub fn from_db_name(s: &str) -> (r: Option<SeriesType>)
        ensures
            r == Self::spec_from_db_name(s@),
    {
        proof {
            reveal_strlit("bo1");
            reveal_strlit("bo3");
            reveal_strlit("bo5");
        }
        let n = s.unicode_len();
        if n != 3 || s.get_char(0) != 'b' || s.get_char(1) != 'o' {
            proof {
                if n == 3 {
                    assert(s@[0] != 'b' || s@[1] != 'o');
                }
            }
            return None;
        }
        let c = s.get_char(2);
        if c == '1' {
            assert(s@ =~= "bo1"@);
            Some(SeriesType::Bo1)
        } else if c == '3' {
            assert(s@ =~= "bo3"@);
            Some(SeriesType::Bo3)
        } else if c == '5' {
            assert(s@ =~= "bo5"@);
            Some(SeriesType::Bo5)
        } else {
            None
        }
    }
}

/// A persisted series. Timestamps are seconds since the Unix epoch.
#[derive(Clone, Debug)]
pub struct MatchSeries {
    pub id: i32,
    pub team_one: i32,
    pub team_two: i32,
    pub series_type: SeriesType,
    /// The host's reference for the series, where one was created.
    pub dathost_match: Option<String>,
    pub created_at: i64,
    pub completed_at: Option<i64>,
}

} // verus!
