//! The per-map overview of a series, with names in place of identifiers.
use vstd::prelude::*;

verus! {

/// A team as the overview names it.
#[derive(Clone, Debug)]
pub struct TeamSummary {
    pub id: i32,
    pub name: String,
}

/// A map of the map pool.
#[derive(Clone, Debug)]
pub struct MapRecord {
    pub id: i32,
    pub name: String,
}

/// A match of a series as the store holds it: the map and the teams that
/// picked it and start on each side.
#[derive(Clone, Copy, Debug, PartialEq, Eq, Structural)]
pub struct SeriesMap {
    pub map: i32,
    pub picked_by: i32,
    pub start_ct_team: i32,
    pub start_t_team: i32,
    pub completed_at: Option<i64>,
}

/// A match of a series with names in place of identifiers.
#[derive(Clone, Debug)]
pub struct DetailedMap {
    pub map: String,
    pub picked_by: String,
    pub start_ct_team: String,
    pub start_t_team: String,
    pub completed: bool,
}

/// Team one's name for team one's identifier, team two's for any other.
pub open spec fn spec_team_name(id: i32, team_one: TeamSummary, team_two: TeamSummary) -> String {
    if id == team_one.id {
        team_one.name
    } else {
        team_two.name
    }
}

/// The name of the first map of the pool with an identifier.
pub open spec fn spec_map_name(maps: Seq<MapRecord>, id: i32) -> Option<String>
    decreases maps.len(),
{
    if maps.len() == 0 {
        None
    } else if maps[0].id == id {
        Some(maps[0].name)
    } else {
        spec_map_name(maps.skip(1), id)
    }
}

pub open spec fn spec_detailed_map(
    m: SeriesMap,
    maps: Seq<MapRecord>,
    team_one: TeamSummary,
    team_two: TeamSummary,
) -> Option<DetailedMap> {
    match spec_map_name(maps, m.map) {
        Some(name) => Some(
            DetailedMap {
                map: name,
                picked_by: spec_team_name(m.picked_by, team_one, team_two),
                start_ct_team: spec_team_name(m.start_ct_team, team_one, team_two),
                start_t_team: spec_team_name(m.start_t_team, team_one, team_two),
                completed: m.completed_at is Some,
            },
        ),
        None => None,
    }
}

/// Names the team behind an identifier of a two-team series.
pub fn team_name(id: i32, team_one: &TeamSummary, team_two: &TeamSummary) -> (r: String)
    ensures
        r == spec_team_name(id, *team_one, *team_two),
{
    if id == team_one.id {
        team_one.name.clone()
    } else {
        team_two.name.clone()
    }
}

/// Looks a map up in the pool by identifier.
pub fn map_name(maps: &Vec<MapRecord>, id: i32) -> (r: Option<String>)
    ensures
        r == spec_map_name(maps@, id),
{
    let mut i: usize = 0;
    assert(maps@.skip(0) =~= maps@);
    while i < maps.len()
        invariant
            0 <= i <= maps.len(),
            spec_map_name(maps@, id) == spec_map_name(maps@.skip(i as int), id),
        decreases maps.len() - i,
    {
        assert(maps@.skip(i as int).skip(1) =~= maps@.skip(i as int + 1));
        if maps[i].id == id {
            return Some(maps[i].name.clone());
        }
        i = i + 1;
    }
    None
}

/// Describes each match of a series by map name, picking team, starting
/// teams and completion; `None` when a match names a map outside the pool.
pub fn detailed_maps(
    series_maps: &Vec<SeriesMap>,
    maps: &Vec<MapRecord>,
    team_one: &TeamSummary,
    team_two: &TeamSummary,
) -> (r: Option<Vec<DetailedMap>>)
    ensures
        (forall|i: int|
            0 <= i < series_maps.len() ==> #[trigger] spec_detailed_map(
                series_maps@[i],
                maps@,
                *team_one,
                *team_two,
            ) is Some) <==> r is Some,
        r matches Some(v) ==> v@.len() == series_maps@.len() && forall|i: int|
            0 <= i < v@.len() ==> spec_detailed_map(series_maps@[i], maps@, *team_one, *team_two)
                == Some(#[trigger] v@[i]),
{
    let mut out: Vec<DetailedMap> = Vec::new();
    let mut i: usize = 0;
    while i < series_maps.len()
        invariant
            0 <= i <= series_maps.len(),
            out@.len() == i,
            forall|k: int|
                0 <= k < i ==> spec_detailed_map(series_maps@[k], maps@, *team_one, *team_two)
                    == Some(#[trigger] out@[k]),
        decreases series_maps.len() - i,
    {
        let m = series_maps[i];
        let name = match map_name(maps, m.map) {
            Some(name) => name,
            None => {
                assert(spec_detailed_map(series_maps@[i as int], maps@, *team_one, *team_two)
                    is None);
                return None;
            },
        };
        let d = DetailedMap {
            map: name,
            picked_by: team_name(m.picked_by, team_one, team_two),
            start_ct_team: team_name(m.start_ct_team, team_one, team_two),
            start_t_team: team_name(m.start_t_team, team_one, team_two),
            completed: m.completed_at.is_some(),
        };
        out.push(d);
        i = i + 1;
    }
    assert forall|k: int| 0 <= k < series_maps.len() implies #[trigger] spec_detailed_map(
        series_maps@[k],
        maps@,
        *team_one,
        *team_two,
    ) is Some by {
        assert(spec_detailed_map(series_maps@[k], maps@, *team_one, *team_two) == Some(out@[k]));
    }
    Some(out)
}

} // verus!
